use linefilter::LineManager;

fn seg_texts(segs: &[linefilter::Segment]) -> Vec<(String, bool)> {
    segs.iter()
        .map(|s| (String::from_utf8(s.text.clone()).unwrap(), s.highlighted))
        .collect()
}

#[test]
fn highlights_a_match_at_the_start() {
    let mut manager = LineManager::new(5);
    assert!(manager.update_filter("err"));

    let segs = manager.highlight_line("err: 1");

    assert_eq!(
        seg_texts(&segs),
        vec![(String::from("err"), true), (String::from(": 1"), false)]
    );
}

#[test]
fn highlights_a_match_at_the_end() {
    let mut manager = LineManager::new(5);
    assert!(manager.update_filter("err"));

    let segs = manager.highlight_line("1 err");

    assert_eq!(
        seg_texts(&segs),
        vec![(String::from("1 "), false), (String::from("err"), true)]
    );
}

#[test]
fn highlights_a_match_in_the_middle() {
    let mut manager = LineManager::new(5);
    assert!(manager.update_filter("err"));

    let segs = manager.highlight_line("an err here");

    assert_eq!(
        seg_texts(&segs),
        vec![
            (String::from("an "), false),
            (String::from("err"), true),
            (String::from(" here"), false),
        ]
    );
}

#[test]
fn highlights_every_match() {
    let mut manager = LineManager::new(5);
    assert!(manager.update_filter("ab"));

    let segs = manager.highlight_line("ab-ab");

    assert_eq!(
        seg_texts(&segs),
        vec![
            (String::from("ab"), true),
            (String::from("-"), false),
            (String::from("ab"), true),
        ]
    );
}

#[test]
fn no_match_gives_one_plain_segment() {
    let mut manager = LineManager::new(5);
    assert!(manager.update_filter("err"));

    let segs = manager.highlight_line("all quiet");

    assert_eq!(seg_texts(&segs), vec![(String::from("all quiet"), false)]);
}

#[test]
fn empty_pattern_never_highlights() {
    let manager = LineManager::new(5);

    let segs = manager.highlight_line("anything at all");

    assert_eq!(
        seg_texts(&segs),
        vec![(String::from("anything at all"), false)]
    );
}

#[test]
fn empty_line_with_empty_pattern_is_one_empty_segment() {
    let manager = LineManager::new(5);

    let segs = manager.highlight_line("");

    assert_eq!(seg_texts(&segs), vec![(String::new(), false)]);
}

#[test]
fn byte_offsets_respect_multibyte_characters() {
    let mut manager = LineManager::new(5);
    assert!(manager.update_filter("ll"));

    let segs = manager.highlight_line("héllo");

    assert_eq!(
        seg_texts(&segs),
        vec![
            (String::from("hé"), false),
            (String::from("ll"), true),
            (String::from("o"), false),
        ]
    );
}
