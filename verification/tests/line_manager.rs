use linefilter::LineManager;
use regex::Regex;

#[test]
fn creates_new_line_manager() {
    let manager = LineManager::new(10);

    assert_eq!(manager.capacity(), 10);
    assert_eq!(manager.count(), 0);
}

#[test]
fn adds_new_line() {
    let mut manager = LineManager::new(10);

    manager.add_line(String::from("New line!"));

    assert_eq!(manager.lines(), vec![String::from("New line!")]);
}

#[test]
fn pops_at_capacity() {
    let mut manager = LineManager::new(2);
    manager.add_line(String::from("New line!"));
    manager.add_line(String::from("New line 2!"));
    manager.add_line(String::from("New line 3!"));

    assert_eq!(manager.count(), 2);
    assert_eq!(
        manager.lines(),
        vec![String::from("New line 2!"), String::from("New line 3!")]
    )
}

#[test]
fn filters_lines() {
    let mut manager = LineManager::new(5);
    manager.add_line(String::from("New line!"));
    manager.add_line(String::from("New line 2!"));
    manager.add_line(String::from("The line 3!"));

    let filter = Regex::new("New").unwrap();

    assert_eq!(manager.filter(&filter, 3), vec!["New line 2!", "New line!"]);
}

#[test]
fn gets_count() {
    let mut manager = LineManager::new(5);
    manager.add_line(String::from("New line!"));
    manager.add_line(String::from("New line 2!"));
    manager.add_line(String::from("The line 3!"));

    assert_eq!(manager.count(), 3);
}

#[test]
fn zero_capacity_retains_nothing() {
    let mut manager = LineManager::new(0);
    manager.add_line(String::from("dropped"));

    assert_eq!(manager.count(), 0);
    assert_eq!(manager.lines(), Vec::<String>::new());
}

#[test]
fn empty_filter_shows_everything_newest_first() {
    let mut manager = LineManager::new(10);
    manager.add_line(String::from("one"));
    manager.add_line(String::from("two"));
    manager.add_line(String::from("three"));

    assert_eq!(manager.filtered_view(10), vec!["three", "two", "one"]);
}

#[test]
fn unmatched_filter_shows_nothing_regardless_of_scroll() {
    let mut manager = LineManager::new(10);
    manager.add_line(String::from("one"));
    manager.add_line(String::from("two"));
    assert!(manager.update_filter("nothing matches this"));

    assert_eq!(manager.filtered_view(10), Vec::<String>::new());
    manager.scroll_down(5);
    assert_eq!(manager.filtered_view(10), Vec::<String>::new());
}

#[test]
fn filtered_view_respects_the_viewport() {
    let mut manager = LineManager::new(10);
    manager.add_line(String::from("one"));
    manager.add_line(String::from("two"));
    manager.add_line(String::from("three"));

    assert_eq!(manager.filtered_view(2), vec!["three", "two"]);
    assert_eq!(manager.filtered_view(0), Vec::<String>::new());
}

#[test]
fn update_filter_is_idempotent() {
    let mut once = LineManager::new(10);
    let mut twice = LineManager::new(10);
    for manager in [&mut once, &mut twice] {
        manager.add_line(String::from("err: 1"));
        manager.add_line(String::from("ok: 2"));
        manager.add_line(String::from("err: 3"));
    }

    assert!(once.update_filter("err"));
    assert!(twice.update_filter("err"));
    assert!(twice.update_filter("err"));

    assert_eq!(once.filtered_view(10), twice.filtered_view(10));
    assert_eq!(once.filtered_view(10), vec!["err: 3", "err: 1"]);
}

#[test]
fn scroll_to_bottom_round_trips_to_a_fresh_view() {
    let mut scrolled = LineManager::new(10);
    let mut fresh = LineManager::new(10);
    for manager in [&mut scrolled, &mut fresh] {
        manager.add_line(String::from("a 1"));
        manager.add_line(String::from("a 2"));
        manager.add_line(String::from("a 3"));
        assert!(manager.update_filter("a"));
    }

    scrolled.scroll_down(2);
    assert_eq!(scrolled.filtered_view(10), vec!["a 1"]);
    scrolled.scroll_to_bottom();

    assert_eq!(scrolled.filtered_view(10), fresh.filtered_view(10));
    assert_eq!(scrolled.filtered_view(10), vec!["a 3", "a 2", "a 1"]);
}

#[test]
fn overshooting_scroll_clamps_to_the_oldest_match() {
    let mut manager = LineManager::new(10);
    manager.add_line(String::from("err: 1"));
    manager.add_line(String::from("ok: 2"));
    manager.add_line(String::from("err: 3"));
    manager.add_line(String::from("err: 4"));
    assert!(manager.update_filter("err"));

    manager.scroll_down(1000);

    assert_eq!(manager.filtered_view(10), vec!["err: 1"]);
}

#[test]
fn scroll_movements_clamp_both_ways() {
    let mut manager = LineManager::new(10);
    manager.add_line(String::from("a"));
    manager.add_line(String::from("b"));
    manager.add_line(String::from("c"));

    manager.scroll_up(5);
    assert_eq!(manager.filtered_view(1), vec!["c"]);

    manager.scroll_to_top();
    assert_eq!(manager.filtered_view(1), vec!["a"]);

    manager.scroll_up(1);
    assert_eq!(manager.filtered_view(1), vec!["b"]);

    manager.scroll_down(1);
    assert_eq!(manager.filtered_view(1), vec!["a"]);
}

#[test]
fn evicted_lines_leave_the_filtered_view() {
    let mut manager = LineManager::new(2);
    manager.add_line(String::from("a"));
    manager.add_line(String::from("b"));
    manager.add_line(String::from("c"));

    assert_eq!(manager.lines(), vec![String::from("b"), String::from("c")]);

    assert!(manager.update_filter("a"));
    assert_eq!(manager.filtered_view(10), Vec::<String>::new());

    assert!(manager.update_filter("c"));
    assert_eq!(manager.filtered_view(10), vec!["c"]);

    assert!(manager.update_filter("b"));
    assert_eq!(manager.filtered_view(10), vec!["b"]);
}

#[test]
fn newest_first_filtering_scenario() {
    let mut manager = LineManager::new(5);
    manager.add_line(String::from("err: 1"));
    manager.add_line(String::from("ok: 2"));
    manager.add_line(String::from("err: 3"));
    assert!(manager.update_filter("err"));

    assert_eq!(manager.filtered_view(10), vec!["err: 3", "err: 1"]);
}

#[test]
fn invalid_pattern_keeps_the_previous_filter() {
    let mut manager = LineManager::new(5);
    manager.add_line(String::from("err: 1"));
    manager.add_line(String::from("ok: 2"));
    manager.add_line(String::from("err: 3"));

    assert!(manager.update_filter("err"));
    assert!(!manager.update_filter("err("));

    assert_eq!(manager.filtered_view(10), vec!["err: 3", "err: 1"]);
}
