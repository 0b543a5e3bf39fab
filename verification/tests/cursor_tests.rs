use gbrowse::cursor::{Cursor, CursorVec, CursorView, PointMatrix};

#[test]
fn wrapped_moves_go_round_the_ring() {
    let v = vec![10, 20, 30, 40, 50];
    for start in 0..5usize {
        for delta in [-12isize, -5, -1, 0, 1, 4, 7, 13] {
            let mut c = Cursor { head: start, buff: false };
            c.move_wrapped(&v, delta);
            assert_eq!(c.head as isize, (start as isize + delta).rem_euclid(5));
        }
    }
}

#[test]
fn moves_stop_at_the_ends() {
    let v = vec!['a', 'b', 'c'];
    let mut c = Cursor { head: 1, buff: false };
    assert_eq!(c.move_head(&v, 5), 4);
    assert_eq!(c.head, 2);
    assert_eq!(c.move_head(&v, -4), -2);
    assert_eq!(c.head, 0);
    let mut b = Cursor { head: 3, buff: true };
    assert_eq!(b.move_head(&v, 0), 0);
    assert_eq!(b.get_max(&v), 3);
}

#[test]
fn cursor_vectors_insert_and_remove() {
    let mut tabs: CursorVec<&str> = CursorVec::default();
    tabs.insert("a");
    tabs.insert("b");
    tabs.insert("c");
    assert_eq!(tabs.data, vec!["a", "b", "c"]);
    assert_eq!(tabs.cursor.head, 2);
    tabs.cursor.head = 0;
    tabs.insert("x");
    assert_eq!(tabs.data, vec!["x", "a", "b", "c"]);
    assert_eq!(tabs.cursor.head, 1);
    assert!(tabs.remove());
    assert_eq!(tabs.data, vec!["x", "b", "c"]);
    assert_eq!(tabs.cursor.head, 0);
    assert!(tabs.remove());
    assert_eq!(tabs.cursor.head, 1);
    assert_eq!(tabs.get(), Some(&"c"));
}

#[test]
fn unique_insertion_moves_onto_an_equal_unit() {
    let mut v: CursorVec<u32> = CursorVec::from(vec![1, 2, 3]);
    assert!(!v.insert_unique_with(|x| *x == 3, 3));
    assert_eq!(v.cursor.head, 2);
    assert_eq!(v.data, vec![1, 2, 3]);
    v.cursor.head = 0;
    assert!(v.insert_unique_with(|x| *x == 9, 9));
    assert_eq!(v.data, vec![1, 9, 2, 3]);
    assert_eq!(v.cursor.head, 1);
}

#[test]
fn linear_position_counts_through_rows() {
    let mut m = PointMatrix::from(vec![vec!['a', 'b'], vec!['c'], vec!['d', 'e', 'f']]);
    m.set_linear(4);
    assert_eq!(m.point.row_head(), 2);
    assert_eq!(m.point.col_head(), 1);
    assert_eq!(m.get_linear(), 4);
}

#[test]
fn views_scroll_just_enough() {
    let mut v = CursorView::from_size(3);
    assert!(!v.update(1));
    assert_eq!((v.scroll, v.cursor), (0, 1));
    assert!(v.update(5));
    assert_eq!((v.scroll, v.cursor), (3, 2));
    assert!(v.update(1));
    assert_eq!((v.scroll, v.cursor), (1, 0));
}

#[test]
fn resized_views_keep_the_cursor_where_it_fits() {
    let mut v = CursorView { head: 10, scroll: 8, cursor: 2, size: 5 };
    v.resize(10, 2);
    assert_eq!((v.head, v.scroll, v.cursor, v.size), (10, 9, 1, 2));
    v.resize(1, 5);
    assert_eq!((v.scroll, v.cursor), (0, 1));
    // a head as far as the window is long stays inside the window
    let mut w = CursorView { head: 0, scroll: 0, cursor: 0, size: 5 };
    w.resize(3, 3);
    assert!(w.cursor < w.size);
    assert_eq!(w.scroll + w.cursor as usize, 3);
}

#[test]
fn unique_insertion_never_doubles_a_unit() {
    let mut v: CursorVec<u32> = CursorVec::from(vec![4, 7]);
    for u in [7u32, 4, 9, 9, 4, 1, 7, 1] {
        v.insert_unique_with(|x| *x == u, u);
        assert_eq!(v.get(), Some(&u));
        let mut seen = v.data.clone();
        seen.sort();
        seen.dedup();
        assert_eq!(seen.len(), v.data.len());
    }
}

#[test]
fn linear_index_round_trips() {
    let rows = vec![vec!['a', 'b'], vec![], vec!['c'], vec!['d', 'e', 'f']];
    let total = 2 + 1 + 1 + 3;
    let mut m = PointMatrix::from(rows.clone());
    for idx in 0..total + 3 {
        m.set_linear(idx);
        assert_eq!(m.get_linear(), idx.min(total - 1));
    }
    for y in 0..rows.len() {
        for x in 0..rows[y].len().max(1) {
            let mut p = PointMatrix::from(rows.clone());
            p.point.y.head = y;
            p.point.x.head = x;
            let idx = p.get_linear();
            let mut q = PointMatrix::from(rows.clone());
            q.set_linear(idx);
            assert_eq!((q.point.row_head(), q.point.col_head()), (y, x));
        }
    }
}

#[test]
fn move_left_undoes_move_right() {
    let rows = vec![vec!['a', 'b'], vec![], vec!['c'], vec!['d', 'e', 'f']];
    let mut m = PointMatrix::from(rows);
    m.set_linear(1);
    for d in 0..6usize {
        let before = (m.point.row_head(), m.point.col_head());
        m.move_right(d);
        assert_eq!(m.get_linear(), 1 + d);
        m.move_left(d);
        assert_eq!((m.point.row_head(), m.point.col_head()), before);
    }
}

#[test]
fn nothing_lies_beyond_the_ends() {
    let v = vec!['a', 'b', 'c'];
    let mut c = Cursor { head: 1, buff: false };
    c.move_to_start();
    assert_eq!(c.move_head(&v, -1), -1);
    assert_eq!(c.head, 0);
    c.move_to_end(&v);
    assert_eq!(c.head, 2);
    assert_eq!(c.peek_move(&v, 1), 1);
    assert_eq!(c.move_head(&v, 1), 1);
    assert_eq!(c.head, 2);
}

#[test]
fn single_steps_fit_on_a_unit() {
    let mut v: CursorVec<u32> = CursorVec::from(vec![1, 2, 3]);
    assert!(v.step_fits());
    v.move_wrapped(1);
    v.move_wrapped(1);
    v.move_wrapped(1);
    assert_eq!(v.cursor.head, 0);
    v.cursor.head = 7;
    assert!(!v.step_fits());
    let e: CursorVec<u32> = CursorVec::from(vec![]);
    assert!(e.step_fits());
}

#[test]
fn cursor_views_scroll_as_little_as_they_can() {
    let mut v = CursorView::from_size(5);
    assert!(v.update(7));
    assert_eq!((v.scroll, v.cursor), (3, 4));
    assert!(!v.update(5));
    assert_eq!(v.scroll, 3);
    assert!(v.update(1));
    assert_eq!((v.scroll, v.cursor), (1, 0));
    v.resize(9, 3);
    assert_eq!((v.scroll, v.cursor), (9, 0));
}
