use oxc_language_server::position::{range_overlaps, Position, Range};

fn range(start: (u32, u32), end: (u32, u32)) -> Range {
    Range {
        start: Position { line: start.0, character: start.1 },
        end: Position { line: end.0, character: end.1 },
    }
}

#[test]
fn overlapping_ranges() {
    let a = range((1, 0), (3, 5));
    assert!(range_overlaps(a, range((2, 0), (2, 1))));
    assert!(range_overlaps(range((2, 0), (2, 1)), a));
    assert!(range_overlaps(a, a));
    assert!(range_overlaps(a, range((0, 9), (1, 0))));
    assert!(range_overlaps(a, range((3, 5), (9, 0))));
}

#[test]
fn ranges_apart() {
    let a = range((1, 0), (3, 5));
    assert!(!range_overlaps(a, range((3, 6), (3, 7))));
    assert!(!range_overlaps(range((3, 6), (3, 7)), a));
    assert!(!range_overlaps(a, range((0, 0), (0, 99))));
}

#[test]
fn the_line_counts_before_the_character() {
    assert!(!range_overlaps(range((1, 0), (1, 9)), range((2, 0), (2, 1))));
    assert!(range_overlaps(range((1, 9), (2, 0)), range((1, 50), (1, 60))));
}

#[test]
fn reversed_range_does_not_overlap_itself() {
    let reversed = range((3, 0), (1, 0));
    assert!(!range_overlaps(reversed, reversed));
}
