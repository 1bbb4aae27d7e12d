use linefilter::LineManager;
use linefilter::PollResult;
use linefilter::SessionEvent;

fn store_with_lines() -> LineManager {
    let mut manager = LineManager::new(20);
    for i in 1..=12 {
        manager.add_line(format!("line {}", i));
    }
    manager
}

#[test]
fn escape_terminates_without_touching_the_store() {
    let mut manager = store_with_lines();

    let r = manager.handle_event(SessionEvent::Escape);

    assert!(matches!(r, PollResult::Escape));
    assert_eq!(manager.count(), 12);
    assert_eq!(manager.filtered_view(1), vec!["line 12"]);
}

#[test]
fn scroll_events_move_by_one_and_fast_scroll_by_ten() {
    let mut manager = store_with_lines();

    let r = manager.handle_event(SessionEvent::ScrollDown);
    assert!(matches!(r, PollResult::NoNewFilter));
    assert_eq!(manager.filtered_view(1), vec!["line 11"]);

    let r = manager.handle_event(SessionEvent::FastScrollDown);
    assert!(matches!(r, PollResult::NoNewFilter));
    assert_eq!(manager.filtered_view(1), vec!["line 1"]);

    let r = manager.handle_event(SessionEvent::ScrollUp);
    assert!(matches!(r, PollResult::NoNewFilter));
    assert_eq!(manager.filtered_view(1), vec!["line 2"]);

    let r = manager.handle_event(SessionEvent::FastScrollUp);
    assert!(matches!(r, PollResult::NoNewFilter));
    assert_eq!(manager.filtered_view(1), vec!["line 12"]);
}

#[test]
fn jump_events_reach_both_ends_of_the_matched_set() {
    let mut manager = store_with_lines();

    let r = manager.handle_event(SessionEvent::JumpToTop);
    assert!(matches!(r, PollResult::NoNewFilter));
    assert_eq!(manager.filtered_view(1), vec!["line 1"]);

    let r = manager.handle_event(SessionEvent::JumpToBottom);
    assert!(matches!(r, PollResult::NoNewFilter));
    assert_eq!(manager.filtered_view(1), vec!["line 12"]);
}

#[test]
fn an_edited_filter_is_applied() {
    let mut manager = store_with_lines();

    let r = manager.handle_event(SessionEvent::FilterEdited(String::from("line 1\\b")));

    assert!(matches!(r, PollResult::NewFilter));
    assert_eq!(manager.filtered_view(5), vec!["line 1"]);
}

#[test]
fn an_invalid_edited_filter_keeps_the_previous_one() {
    let mut manager = store_with_lines();

    manager.handle_event(SessionEvent::FilterEdited(String::from("line 2")));
    let r = manager.handle_event(SessionEvent::FilterEdited(String::from("line 2(")));

    assert!(matches!(r, PollResult::NewFilter));
    assert_eq!(manager.filtered_view(5), vec!["line 2"]);
}

#[test]
fn idle_input_changes_nothing() {
    let mut manager = store_with_lines();
    manager.handle_event(SessionEvent::ScrollDown);

    let r = manager.handle_event(SessionEvent::Idle);

    assert!(matches!(r, PollResult::NoNewFilter));
    assert_eq!(manager.filtered_view(1), vec!["line 11"]);
}
