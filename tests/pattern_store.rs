use silverlink::pattern::{parse_pattern, pattern_get, KnitPattern};

fn bits(p: &KnitPattern) -> Vec<Vec<bool>> {
    p.rows.clone()
}

#[test]
fn parse_two_rows() {
    let p = parse_pattern("#.\n.#");
    assert_eq!(p.width, 2);
    assert_eq!(p.height, 2);
    assert_eq!(bits(&p), vec![vec![true, false], vec![false, true]]);
}

#[test]
fn parse_all_mark_characters() {
    let p = parse_pattern("#@Xx.o -");
    assert_eq!(bits(&p), vec![vec![true, true, true, true, false, false, false, false]]);
}

#[test]
fn parse_empty_text_gives_empty_pattern() {
    let p = parse_pattern("");
    assert_eq!(p.width, 0);
    assert_eq!(p.height, 0);
    assert!(p.rows.is_empty());
}

#[test]
fn parse_ragged_rows_take_longest_width() {
    let p = parse_pattern("#\n#..#\n.#");
    assert_eq!(p.height, 3);
    assert_eq!(p.width, 4);
    assert!(!p.bit_at(0, 1));
    assert!(p.bit_at(1, 3));
    assert!(!p.bit_at(2, 3));
}

#[test]
fn parse_final_newline_adds_no_row() {
    let p = parse_pattern("#.\n.#\n");
    assert_eq!(p.height, 2);
}

#[test]
fn parse_crlf_line_endings() {
    let p = parse_pattern("#.\r\n.#\r\n");
    assert_eq!(p.height, 2);
    assert_eq!(p.width, 2);
    assert_eq!(bits(&p), vec![vec![true, false], vec![false, true]]);
}

#[test]
fn parse_blank_lines_are_empty_rows() {
    let p = parse_pattern("\n\n#");
    assert_eq!(p.height, 3);
    assert_eq!(p.width, 1);
    assert!(p.rows[0].is_empty());
    assert!(p.bit_at(2, 0));
}

#[test]
fn parse_counts_characters_not_bytes() {
    let p = parse_pattern("é#");
    assert_eq!(p.width, 2);
    assert!(!p.bit_at(0, 0));
    assert!(p.bit_at(0, 1));
}

#[test]
fn bit_at_outside_pattern_is_unset() {
    let p = parse_pattern("##\n##");
    assert!(p.bit_at(1, 1));
    assert!(!p.bit_at(2, 0));
    assert!(!p.bit_at(0, 2));
    assert!(!p.bit_at(usize::MAX, usize::MAX));
}

#[test]
fn pattern_get_rejects_negative_and_large_coordinates() {
    let p = parse_pattern("#.\n.#");
    assert!(pattern_get(&p, 0, 0));
    assert!(!pattern_get(&p, 0, 1));
    assert!(pattern_get(&p, 1, 1));
    assert!(!pattern_get(&p, -1, 0));
    assert!(!pattern_get(&p, 0, -1));
    assert!(!pattern_get(&p, 2, 0));
    assert!(!pattern_get(&p, 0, 2));
}
