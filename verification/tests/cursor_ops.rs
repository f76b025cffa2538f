use std::collections::BTreeSet;

use cycle_cursor::CycleCursor;

#[test]
fn cursor_cycle_next() {
    let source = vec![1, 2, 3, 4];
    let mut cursor = CycleCursor::from(source);

    assert_eq!(cursor.pos, None);
    cursor.cycle_next();
    assert_eq!(cursor.get().unwrap(), &1);
    cursor.cycle_next();
    cursor.cycle_next();
    cursor.cycle_next();
    assert_eq!(cursor.get().unwrap(), &4);
    cursor.cycle_next();
    assert_eq!(cursor.get().unwrap(), &1);
}

#[test]
fn cursor_cycle_next_empty_vec() {
    let source: Vec<usize> = vec![];
    let mut cursor = CycleCursor::from(source);

    assert_eq!(cursor.pos, None);
    cursor.cycle_next();
    assert_eq!(cursor.pos, None);
    assert_eq!(cursor.get(), None);
}

#[test]
fn cursor_cycle_prev() {
    let source = BTreeSet::from([1, 2, 3, 4]);
    let mut cursor = CycleCursor::from(source.into_iter().collect::<Vec<i32>>());

    assert_eq!(cursor.pos, None);
    cursor.cycle_prev();
    assert_eq!(cursor.get().unwrap(), &4);
    cursor.cycle_prev();
    cursor.cycle_prev();
    cursor.cycle_prev();
    assert_eq!(cursor.get().unwrap(), &1);
    cursor.cycle_prev();
    assert_eq!(cursor.get().unwrap(), &4);
}

#[test]
fn cursor_cycle_prev_empty_vec() {
    let source: Vec<usize> = vec![];
    let mut cursor = CycleCursor::from(source);

    assert_eq!(cursor.pos, None);
    cursor.cycle_prev();
    assert_eq!(cursor.pos, None);
    assert_eq!(cursor.get(), None);
}

#[test]
fn cursor_peek() {
    let source = vec![1, 2, 3, 4];
    let mut cursor = CycleCursor::from(source);

    // Cursor on None
    assert_eq!(cursor.peek(3).unwrap(), &3);

    // Move to first element
    cursor.cycle_next();

    assert_eq!(cursor.peek(3).unwrap(), &4);

    cursor.cycle_next();
    cursor.cycle_next();

    assert_eq!(cursor.peek(3).unwrap(), &2);
    assert_eq!(cursor.peek(-3).unwrap(), &4);
}

#[test]
fn cursor_peek_empty_vec() {
    let source: Vec<usize> = vec![];
    let cursor = CycleCursor::from(source);

    assert_eq!(cursor.pos, None);
    assert_eq!(cursor.peek(2), None);
    assert_eq!(cursor.get(), None);
}

#[test]
fn cursor_seek() {
    let source = vec![1, 2, 3, 4];
    let mut cursor = CycleCursor::from(source);

    cursor.seek(6);
    assert_eq!(cursor.get().unwrap(), &2);

    cursor.seek(-3);
    assert_eq!(cursor.get().unwrap(), &3);
}

#[test]
fn cursor_seek_empty_vec() {
    let source: Vec<usize> = vec![];
    let mut cursor = CycleCursor::from(source);

    assert_eq!(cursor.pos, None);
    cursor.seek(2);
    assert_eq!(cursor.pos, None);
    assert_eq!(cursor.get(), None);
}
