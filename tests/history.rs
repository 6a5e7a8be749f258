use shortcutai::history::{loaded_or_empty, push_capped, MAX_LOG_ENTRIES};

#[test]
fn push_below_cap_keeps_everything() {
    let mut logs: Vec<u32> = vec![1, 2, 3];
    push_capped(&mut logs, 4);
    assert_eq!(logs, vec![1, 2, 3, 4]);
}

#[test]
fn push_into_empty_history() {
    let mut logs: Vec<u32> = Vec::new();
    push_capped(&mut logs, 7);
    assert_eq!(logs, vec![7]);
}

#[test]
fn push_at_cap_drops_oldest() {
    let mut logs: Vec<u32> = (0..500).collect();
    push_capped(&mut logs, 500);
    assert_eq!(logs.len(), 500);
    assert_eq!(logs[0], 1);
    assert_eq!(logs[499], 500);
    assert_eq!(logs, (1..501).collect::<Vec<u32>>());
}

#[test]
fn push_reaching_cap_exactly_drops_nothing() {
    let mut logs: Vec<u32> = (0..499).collect();
    push_capped(&mut logs, 499);
    assert_eq!(logs, (0..500).collect::<Vec<u32>>());
}

#[test]
fn push_onto_oversized_history_trims_to_cap() {
    let mut logs: Vec<u32> = (0..600).collect();
    push_capped(&mut logs, 600);
    assert_eq!(logs.len(), MAX_LOG_ENTRIES);
    assert_eq!(logs, (101..601).collect::<Vec<u32>>());
}

#[test]
fn repeated_pushes_keep_newest_in_order() {
    let mut logs: Vec<u32> = Vec::new();
    for i in 0..1200u32 {
        push_capped(&mut logs, i);
        assert!(logs.len() <= 500);
        assert_eq!(*logs.last().unwrap(), i);
    }
    assert_eq!(logs, (700..1200).collect::<Vec<u32>>());
}

#[test]
fn loaded_history_is_kept() {
    let stored: Result<Option<Vec<u32>>, String> = Ok(Some(vec![3, 4]));
    assert_eq!(loaded_or_empty(stored), vec![3, 4]);
}

#[test]
fn missing_history_is_empty() {
    let stored: Result<Option<Vec<u32>>, String> = Ok(None);
    assert!(loaded_or_empty(stored).is_empty());
}

#[test]
fn unreadable_history_is_empty() {
    let stored: Result<Option<Vec<u32>>, String> = Err("Failed to parse JSON file".to_string());
    assert!(loaded_or_empty(stored).is_empty());
}
