//! Lines of characters with a head: one to move through, one to edit.
use vstd::prelude::*;
use vstd::std_specs::convert::FromSpecImpl;
use crate::chars::{chars_of, string_of};

verus! {

/// A line to move through: the index of the source it comes from, the head,
/// and its characters.
#[derive(Clone, Debug)]
pub struct TextLine {
    pub index: usize,
    pub head: usize,
    pub text: Vec<char>,
}

impl TextLine {
    /// The line of the characters of `item`, its head at the start.
    pub fn from_str(item: &str) -> (r: Self)
        ensures
            r.index == 0,
            r.head == 0,
            r.text@ == item@,
    {
        TextLine { index: 0, head: 0, text: chars_of(item) }
    }
}

impl From<Vec<char>> for TextLine {
    fn from(item: Vec<char>) -> (r: Self) {
        TextLine { index: 0, head: 0, text: item }
    }
}

impl FromSpecImpl<Vec<char>> for TextLine {
    open spec fn obeys_from_spec() -> bool {
        true
    }

    open spec fn from_spec(item: Vec<char>) -> Self {
        TextLine { index: 0, head: 0, text: item }
    }
}

impl From<(usize, Vec<char>)> for TextLine {
    fn from(item: (usize, Vec<char>)) -> (r: Self) {
        TextLine { index: item.0, head: 0, text: item.1 }
    }
}

impl FromSpecImpl<(usize, Vec<char>)> for TextLine {
    open spec fn obeys_from_spec() -> bool {
        true
    }

    open spec fn from_spec(item: (usize, Vec<char>)) -> Self {
        TextLine { index: item.0, head: 0, text: item.1 }
    }
}

impl TextLine {
    /// The last place the head can take: the last character, or 0.
    pub fn get_max_head(&self) -> (r: usize)
        ensures
            r == if self.text@.len() > 0 { self.text@.len() - 1 } else { 0 },
    {
        self.text.len().saturating_sub(1)
    }
}

/// A line to edit: the head may stand just past its last character.
#[derive(Clone, Debug)]
pub struct EditLine {
    pub head: usize,
    pub text: Vec<char>,
}

impl EditLine {
    /// The line of `item`, its head at the end.
    pub fn from_str(item: &str) -> (r: Self)
        ensures
            r.text@ == item@,
            r.head == item@.len(),
    {
        let text = chars_of(item);
        let head = text.len();
        EditLine { head, text }
    }
}

impl EditLine {
    /// The last place the head can take: just past the last character.
    pub fn get_max_head(&self) -> (r: usize)
        ensures
            r == self.text@.len(),
    {
        self.text.len()
    }

    /// The line's characters as a string.
    pub fn to_string(&self) -> (r: String)
        ensures
            r@ == self.text@,
    {
        string_of(&self.text)
    }
}

impl EditLine {
    /// Removes the character under the head; false when the head is past
    /// the last one.
    pub fn delete(&mut self) -> (r: bool)
        ensures
            r == (old(self).head < old(self).text@.len()),
            final(self).head == old(self).head,
            r ==> final(self).text@ == old(self).text@.remove(old(self).head as int),
            !r ==> final(self).text@ == old(self).text@,
    {
        if self.head < self.text.len() {
            self.text.remove(self.head);
            true
        } else {
            false
        }
    }

    /// Steps the head back and removes the character it lands on; false at
    /// the start.
    pub fn backspace(&mut self) -> (r: bool)
        requires
            old(self).head <= old(self).text@.len(),
        ensures
            r == (old(self).head > 0),
            r ==> final(self).head == old(self).head - 1
                && final(self).text@ == old(self).text@.remove(old(self).head - 1),
            !r ==> *final(self) == *old(self),
    {
        if self.head > 0 {
            self.head = self.head - 1;
            self.text.remove(self.head);
            true
        } else {
            false
        }
    }

    /// Inserts `c` at the head and steps past it; on the last character, or
    /// in an empty line, `c` goes at the end.
    pub fn insert(&mut self, c: char) -> (r: bool)
        requires
            old(self).head <= old(self).text@.len() < usize::MAX,
        ensures
            r,
            final(self).head == old(self).head + 1,
            final(self).text@ == if old(self).head + 1 == old(self).text@.len() || old(self).text@.len() == 0 {
                old(self).text@.push(c)
            } else {
                old(self).text@.insert(old(self).head as int, c)
            },
    {
        if self.head + 1 == self.text.len() || self.text.len() == 0 {
            self.text.push(c);
        } else {
            self.text.insert(self.head, c);
        }
        self.head = self.head + 1;
        true
    }
}

} // verus!
