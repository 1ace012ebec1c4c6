use rustico::state::{AppState, MAX_SEEN_ANILIST, MAX_SEEN_ANN};

#[test]
fn test_state_operations() {
    let mut state = AppState::default();
    state.add_seen_ann("test_guid".to_string());
    assert!(state.is_seen_ann("test_guid"));

    state.add_seen_anilist(123);
    assert!(state.is_seen_anilist(123));

    state.increment_articles_sent();
    assert_eq!(state.stats.total_articles_sent, 1);
}

#[test]
fn test_state_default() {
    let state = AppState::default();
    assert!(!state.initialized);
    assert!(state.seen_ann.is_empty());
    assert!(state.seen_anilist.is_empty());
    assert_eq!(state.stats.total_articles_sent, 0);
    assert_eq!(state.stats.total_episodes_sent, 0);
    assert_eq!(state.stats.total_errors, 0);
    assert!(state.stats.last_check.is_none());
}

#[test]
fn test_increment_errors() {
    let mut state = AppState::default();
    state.increment_errors();
    state.increment_errors();
    assert_eq!(state.stats.total_errors, 2);
}

#[test]
fn test_prune_seen_ann() {
    let mut state = AppState::default();
    for i in 0..1100 {
        state.add_seen_ann(format!("guid_{}", i));
    }
    // After pruning, should be around MAX_SEEN_ANN / 2
    assert!(state.seen_ann.len() <= MAX_SEEN_ANN);
}

#[test]
fn test_prune_seen_anilist() {
    let mut state = AppState::default();
    for i in 0..600 {
        state.add_seen_anilist(i);
    }
    assert!(state.seen_anilist.len() <= MAX_SEEN_ANILIST);
}

#[test]
fn pruning_keeps_the_most_recent_half() {
    let mut state = AppState::default();
    for i in 0..1001 {
        state.add_seen_ann(format!("guid_{}", i));
    }
    assert_eq!(state.seen_ann.len(), 500);
    assert!(state.is_seen_ann("guid_1000"));
    assert!(state.is_seen_ann("guid_501"));
    assert!(!state.is_seen_ann("guid_500"));
    for i in 0..501 {
        state.add_seen_anilist(i);
    }
    assert_eq!(state.seen_anilist.len(), 250);
    assert!(state.is_seen_anilist(500));
    assert!(!state.is_seen_anilist(250));
}

#[test]
fn adding_a_seen_item_again_changes_nothing() {
    let mut state = AppState::default();
    state.add_seen_ann("a".to_string());
    state.add_seen_ann("b".to_string());
    state.add_seen_ann("a".to_string());
    assert_eq!(state.seen_ann, vec!["a".to_string(), "b".to_string()]);
    state.add_seen_anilist(5);
    state.add_seen_anilist(5);
    assert_eq!(state.seen_anilist, vec![5]);
}

#[test]
fn counters_and_check_stamp() {
    let mut state = AppState::default();
    state.increment_episodes_sent();
    assert_eq!(state.stats.total_episodes_sent, 1);
    assert!(state.stats.last_check.is_some());
    state.set_last_check("2026-05-29T10:30:00Z".to_string());
    assert_eq!(state.stats.last_check.as_deref(), Some("2026-05-29T10:30:00Z"));
    let mut fresh = AppState::default();
    fresh.complete_check();
    assert!(fresh.initialized);
    assert!(fresh.stats.last_check.is_some());
}

#[test]
fn dedup_seen_keeps_first_occurrences() {
    let mut state = AppState::default();
    state.seen_ann = vec!["a".to_string(), "b".to_string(), "a".to_string(), "c".to_string(), "b".to_string()];
    state.seen_anilist = vec![5, 5, 7, 5, 9, 7];
    state.initialized = true;
    state.dedup_seen();
    assert_eq!(state.seen_ann, vec!["a".to_string(), "b".to_string(), "c".to_string()]);
    assert_eq!(state.seen_anilist, vec![5, 7, 9]);
    assert!(state.initialized);
    state.dedup_seen();
    assert_eq!(state.seen_anilist, vec![5, 7, 9]);
}

#[test]
fn full_anilist_list_is_halved_on_a_new_id() {
    let mut state = AppState::default();
    for i in 0..500 {
        state.add_seen_anilist(i);
    }
    assert_eq!(state.seen_anilist.len(), 500);
    state.add_seen_anilist(7);
    assert_eq!(state.seen_anilist.len(), 500);
    state.add_seen_anilist(1000);
    assert_eq!(state.seen_anilist.len(), 250);
    assert!(state.is_seen_anilist(1000));
    assert!(!state.is_seen_anilist(0));
}

#[test]
fn check_stamp_is_utc_rfc3339() {
    let mut state = AppState::default();
    state.update_last_check();
    let t = state.stats.last_check.clone().unwrap();
    assert!(t.ends_with("+00:00"));
    assert_eq!(&t[4..5], "-");
    assert_eq!(&t[10..11], "T");
    assert!([25, 29, 32, 35].contains(&t.len()));
}
