//! What the user's actions do to a page.
use vstd::prelude::*;
use crate::keys::Action;
use crate::page::Page;
use crate::cursor::{spec_move_head, move_head_ok, spec_move_x, move_x_ok, row_lens};

verus! {

impl<T> Page<T> {
    /// `after` is this page with the point moved `delta` rows, the rows
    /// unchanged and the window moved to the point.
    pub open spec fn rows_moved(self, after: Page<T>, delta: int) -> bool {
        let p = self.matrix.point;
        &&& after.page_wf()
        &&& self.moved_to(after.matrix, after)
        &&& after.matrix.data == self.matrix.data
        &&& after.matrix.point.row().head == spec_move_head(p.row().head as int, p.row().spec_get_max(self.matrix.data@.len()) as int, delta).0
    }

    /// Moving the point `delta` rows stays in range.
    pub open spec fn rows_move_ok(self, delta: int) -> bool {
        let p = self.matrix.point;
        move_head_ok(p.row().head as int, p.row().spec_get_max(self.matrix.data@.len()) as int, delta)
    }

    /// `after` is this page with the point moved `delta` characters, the rows
    /// unchanged and the window moved to the point.
    pub open spec fn cols_moved(self, after: Page<T>, delta: int) -> bool {
        let p = self.matrix.point;
        &&& after.page_wf()
        &&& self.moved_to(after.matrix, after)
        &&& after.matrix.data == self.matrix.data
        &&& (after.matrix.point.col().head as int, after.matrix.point.row().head as int)
            == spec_move_x(p.col().head as int, p.col().buff, p.row().head as int, p.row().buff, row_lens(self.matrix.data@), delta)
    }

    /// Moving the point `delta` characters stays in range.
    pub open spec fn cols_move_ok(self, delta: int) -> bool {
        let p = self.matrix.point;
        move_x_ok(p.col().head as int, p.col().buff, p.row().head as int, p.row().buff, row_lens(self.matrix.data@), delta)
    }
}

impl Action {
    /// Moving through `page` as this action asks stays in range.
    pub open spec fn update_ok<T>(self, page: Page<T>) -> bool {
        let h = page.point_view.yv().size as int;
        let n = page.matrix.data@.len() as int;
        match self {
            Action::PageDown => page.rows_move_ok(h),
            Action::PageUp => page.rows_move_ok(-h),
            Action::Bottom => n <= isize::MAX && page.rows_move_ok(n),
            Action::Top => n <= isize::MAX && page.rows_move_ok(-n),
            Action::MoveDown => page.rows_move_ok(1),
            Action::MoveUp => page.rows_move_ok(-1),
            Action::MoveLeft => page.cols_move_ok(-1),
            Action::MoveRight => page.cols_move_ok(1),
            _ => true,
        }
    }

    /// Moves through `page`: a page of rows down or up, to the last or the
    /// first row, or one row or character; other actions leave it as it is.
    pub fn update<T>(&self, page: &mut Page<T>)
        requires
            old(page).page_wf(),
            self.update_ok(*old(page)),
        ensures
            ({
                let h = old(page).point_view.yv().size as int;
                let n = old(page).matrix.data@.len() as int;
                match *self {
                    Action::PageDown => old(page).rows_moved(*final(page), h),
                    Action::PageUp => old(page).rows_moved(*final(page), -h),
                    Action::Bottom => old(page).rows_moved(*final(page), n),
                    Action::Top => old(page).rows_moved(*final(page), -n),
                    Action::MoveDown => old(page).rows_moved(*final(page), 1),
                    Action::MoveUp => old(page).rows_moved(*final(page), -1),
                    Action::MoveLeft => old(page).cols_moved(*final(page), -1),
                    Action::MoveRight => old(page).cols_moved(*final(page), 1),
                    _ => *final(page) == *old(page),
                }
            }),
    {
        match *self {
            Action::PageDown => {
                let h = page.point_view.get_height() as usize;
                page.move_down(h);
            },
            Action::PageUp => {
                let h = page.point_view.get_height() as usize;
                page.move_up(h);
            },
            Action::Bottom => {
                let n = page.matrix.data.len();
                page.move_down(n);
            },
            Action::Top => {
                let n = page.matrix.data.len();
                page.move_up(n);
            },
            Action::MoveDown => page.move_down(1),
            Action::MoveUp => page.move_up(1),
            Action::MoveLeft => page.move_left(1),
            Action::MoveRight => page.move_right(1),
            _ => {},
        }
    }
}

impl<T> Page<T> {
    /// Removing the character before the point stays in range.
    pub open spec fn backspace_ok(self) -> bool {
        self.matrix.point.row().head < self.matrix.data@.len() ==> {
            let row = self.matrix.data@[self.matrix.point.row().head as int];
            let c = self.matrix.point.col();
            &&& move_head_ok(c.head as int, c.spec_get_max(row@.len()) as int, -1)
            &&& spec_move_head(c.head as int, c.spec_get_max(row@.len()) as int, -1).1 == 0 ==> c.head - 1 < row@.len()
        }
    }

    /// Inserting a character at the point stays in range.
    pub open spec fn insert_ok(self) -> bool {
        self.matrix.point.row().head < self.matrix.data@.len() ==> {
            let row = self.matrix.data@[self.matrix.point.row().head as int];
            let c = self.matrix.point.col();
            &&& row@.len() < usize::MAX / 3
            &&& c.head + 1 != row@.len() && row@.len() != 0 ==> c.head <= row@.len()
            &&& move_head_ok(c.head as int, c.spec_get_max((row@.len() + 1) as nat) as int, 1)
        }
    }
}

impl Action {
    /// Editing `page` as this action asks stays in range.
    pub open spec fn update_edit_ok<T>(self, page: Page<T>) -> bool {
        match self {
            Action::PageDown => page.cols_move_ok(-15),
            Action::PageUp => page.cols_move_ok(15),
            Action::Backspace => page.backspace_ok(),
            Action::Insert(_) => page.insert_ok(),
            Action::MoveLeft => page.cols_move_ok(-1),
            Action::MoveRight => page.cols_move_ok(1),
            Action::MoveDown => page.rows_move_ok(1),
            Action::MoveUp => page.rows_move_ok(-1),
            _ => true,
        }
    }

    /// Edits `page`: removes or inserts a character, or moves the point; a
    /// page down moves 15 characters back and a page up 15 on; other actions
    /// leave it as it is.
    pub fn update_edit<T>(&self, page: &mut Page<T>)
        requires
            old(page).page_wf(),
            self.update_edit_ok(*old(page)),
        ensures
            match *self {
                Action::PageDown => old(page).cols_moved(*final(page), -15),
                Action::PageUp => old(page).cols_moved(*final(page), 15),
                Action::Backspace => old(page).backspaced(*final(page)),
                Action::Delete => old(page).deleted(*final(page)),
                Action::Insert(c) => old(page).inserted(c, *final(page)),
                Action::MoveLeft => old(page).cols_moved(*final(page), -1),
                Action::MoveRight => old(page).cols_moved(*final(page), 1),
                Action::MoveDown => old(page).rows_moved(*final(page), 1),
                Action::MoveUp => old(page).rows_moved(*final(page), -1),
                _ => *final(page) == *old(page),
            },
    {
        match *self {
            Action::PageDown => page.move_left(15),
            Action::PageUp => page.move_right(15),
            Action::Backspace => page.backspace(),
            Action::Delete => page.delete(),
            Action::Insert(c) => page.insert(c),
            Action::MoveLeft => page.move_left(1),
            Action::MoveRight => page.move_right(1),
            Action::MoveDown => page.move_down(1),
            Action::MoveUp => page.move_up(1),
            _ => {},
        }
    }
}

} // verus!
