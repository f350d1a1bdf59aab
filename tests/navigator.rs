use audiobookroom::{BookChapters, ChapterRef};

fn book() -> BookChapters {
    BookChapters::new(4, vec![31, 17, 52])
}

#[test]
fn next_then_previous_returns_to_start() {
    let b = book();
    for k in 0..2usize {
        let n = b.next(k).unwrap();
        assert_eq!(n.ordinal, k + 1);
        assert_eq!(b.previous(n.ordinal), b.chapter_at(k));
    }
}

#[test]
fn navigation_stops_at_both_ends() {
    let b = book();
    assert_eq!(b.next(2), None);
    assert_eq!(b.previous(0), None);
    assert_eq!(b.next(7), None);
}

#[test]
fn next_looks_up_by_ordinal_not_identifier() {
    let b = book();
    assert_eq!(b.next(0), Some(ChapterRef { id: 17, book_id: 4, ordinal: 1 }));
    assert_eq!(b.previous(2), Some(ChapterRef { id: 17, book_id: 4, ordinal: 1 }));
}

#[test]
fn ordinal_of_finds_chapter() {
    let b = book();
    assert_eq!(b.ordinal_of(52), Some(2));
    assert_eq!(b.ordinal_of(99), None);
    assert_eq!(b.total(), 3);
    assert_eq!(b.book_id(), 4);
}

#[test]
fn single_chapter_book_has_no_neighbours() {
    let b = BookChapters::new(1, vec![5]);
    assert_eq!(b.next(0), None);
    assert_eq!(b.previous(0), None);
}
