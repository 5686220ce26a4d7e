//! The editable text: lines of characters and a cursor inside them.

use ratatui::layout::Rect;
use ratatui::style::{Color, Style};
use vstd::math::min;
use vstd::prelude::*;
use vstd::std_specs::iter::IteratorSpec;

verus! {

/// ratatui's `Style`, carried through as an opaque value.
#[verifier::external_type_specification]
#[verifier::external_body]
pub struct ExStyle(Style);

/// ratatui's `Rect`, the drawing area, taken as an opaque value.
#[verifier::external_type_specification]
#[verifier::external_body]
pub struct ExRect(Rect);

/// Relies on ratatui's `Style::new` and `Style::fg`: the style the text is drawn in.
/// Nothing in the library depends on what the style holds.
#[verifier::external_body]
fn white_text_style() -> (r: Style) {
    Style::new().fg(Color::White)
}

/// The abstract state of a text area: its lines and the cursor (row, column).
pub struct TextModel {
    pub lines: Seq<Seq<char>>,
    pub row: int,
    pub col: int,
}

impl TextModel {
    /// At least one line; the cursor on an existing row, at an insertion point of it.
    pub open spec fn wf(self) -> bool {
        &&& self.lines.len() >= 1
        &&& 0 <= self.row < self.lines.len()
        &&& 0 <= self.col <= self.lines[self.row].len()
    }

    pub open spec fn line_len(self, i: int) -> int {
        self.lines[i].len() as int
    }

    pub open spec fn with_cursor(self, row: int, col: int) -> TextModel {
        TextModel { lines: self.lines, row, col }
    }

    pub open spec fn move_right(self) -> TextModel {
        if self.col < self.line_len(self.row) {
            self.with_cursor(self.row, self.col + 1)
        } else if self.row + 1 < self.lines.len() {
            self.with_cursor(self.row + 1, 0)
        } else {
            self
        }
    }

    pub open spec fn move_left(self) -> TextModel {
        if self.col > 0 {
            self.with_cursor(self.row, self.col - 1)
        } else if self.row > 0 {
            self.with_cursor(self.row - 1, self.line_len(self.row - 1))
        } else {
            self
        }
    }

    pub open spec fn move_up(self) -> TextModel {
        if self.row > 0 {
            self.with_cursor(self.row - 1, min(self.col, self.line_len(self.row - 1)))
        } else {
            self
        }
    }

    pub open spec fn move_down(self) -> TextModel {
        if self.row + 1 < self.lines.len() {
            self.with_cursor(self.row + 1, min(self.col, self.line_len(self.row + 1)))
        } else {
            self
        }
    }

    pub open spec fn move_to_end(self) -> TextModel {
        self.with_cursor(self.row, self.line_len(self.row))
    }

    /// `c` goes in at the cursor, and the cursor goes past it.
    pub open spec fn insert_char(self, c: char) -> TextModel {
        let line = self.lines[self.row];
        TextModel {
            lines: self.lines.update(self.row, line.insert(self.col, c)),
            row: self.row,
            col: self.col + 1,
        }
    }

    /// The current line is cut at the cursor; the cursor starts the second part.
    pub open spec fn insert_new_line(self) -> TextModel {
        let line = self.lines[self.row];
        TextModel {
            lines: self.lines.take(self.row) + seq![line.take(self.col), line.skip(self.col)]
                + self.lines.skip(self.row + 1),
            row: self.row + 1,
            col: 0,
        }
    }

    /// Backspace, given whether the current line is blank: nothing at the very
    /// start; at the start of a blank line the line goes and the cursor ends the
    /// line above; at the start of another line the cursor only moves up;
    /// elsewhere the character before the cursor goes.
    pub open spec fn delete_left(self, line_is_blank: bool) -> TextModel {
        if self.row == 0 && self.col == 0 {
            self
        } else if self.col == 0 && line_is_blank {
            TextModel {
                lines: self.lines.remove(self.row),
                row: self.row - 1,
                col: self.line_len(self.row - 1),
            }
        } else if self.col == 0 {
            self.move_left()
        } else {
            let line = self.lines[self.row];
            TextModel {
                lines: self.lines.update(self.row, line.remove(self.col - 1)),
                row: self.row,
                col: self.col - 1,
            }
        }
    }

    /// The current line holds white space only (or nothing).
    pub open spec fn current_line_blank(self) -> bool {
        is_blank(self.lines[self.row])
    }
}

/// Whether `c` has Unicode's White_Space property.
pub open spec fn white_space(c: char) -> bool {
    let u = c as u32;
    ||| 0x09 <= u <= 0x0d
    ||| u == 0x20
    ||| u == 0x85
    ||| u == 0xa0
    ||| u == 0x1680
    ||| 0x2000 <= u <= 0x200a
    ||| u == 0x2028
    ||| u == 0x2029
    ||| u == 0x202f
    ||| u == 0x205f
    ||| u == 0x3000
}

pub open spec fn is_blank(line: Seq<char>) -> bool {
    forall|i: int| 0 <= i < line.len() ==> white_space(#[trigger] line[i])
}

/// Relies on `char::is_whitespace`: whether `c` has Unicode's White_Space
/// property, whose members `white_space` lists.
#[verifier::external_body]
fn is_white_space(c: char) -> (r: bool)
    ensures
        r == white_space(c),
{
    c.is_whitespace()
}

/// The characters of `s`, in order.
fn chars_of(s: &str) -> (r: Vec<char>)
    ensures
        r@ == s@,
{
    broadcast use vstd::string::axiom_spec_iter, vstd::string::next_postcondition;

    let mut it = s.chars();
    let mut out: Vec<char> = Vec::new();
    loop
        invariant
            out@ + it.remaining() == s@,
            it.decrease() is Some,
        ensures
            out@ == s@,
        decreases it.decrease()->0,
    {
        match it.next() {
            Some(c) => out.push(c),
            None => {
                assert(out@ =~= s@);
                break;
            },
        }
    }
    out
}

/// Relies on `FromIterator<char>` for `String`: the string of the characters of `v`.
#[verifier::external_body]
fn string_of(v: &[char]) -> (r: String)
    ensures
        r@ == v@,
{
    v.iter().collect()
}

/// Whether every character of `line` is white space.
pub fn line_is_blank(line: &[char]) -> (r: bool)
    ensures
        r == is_blank(line@),
{
    let mut i: usize = 0;
    while i < line.len()
        invariant
            0 <= i <= line@.len(),
            forall|j: int| 0 <= j < i ==> white_space(#[trigger] line@[j]),
        decreases line@.len() - i,
    {
        if !is_white_space(line[i]) {
            return false;
        }
        i += 1;
    }
    true
}

/// The state of an editable text area.
pub struct TextArea {
    lines: Vec<Vec<char>>,
    cursor_x: usize,
    cursor_y: usize,
    style: Style,
}

impl View for TextArea {
    type V = TextModel;

    closed spec fn view(&self) -> TextModel {
        TextModel {
            lines: self.lines@.map_values(|l: Vec<char>| l@),
            row: self.cursor_y as int,
            col: self.cursor_x as int,
        }
    }
}

impl TextArea {
    pub open spec fn wf(&self) -> bool {
        self@.wf()
    }

    /// Create a `TextArea` with the provided lines, the cursor at the start; no
    /// lines give one empty line.
    pub fn new(lines: Vec<String>) -> (r: TextArea)
        ensures
            r.wf(),
            r@.row == 0,
            r@.col == 0,
            lines@.len() == 0 ==> r@.lines == seq![Seq::<char>::empty()],
            lines@.len() > 0 ==> r@.lines == lines@.map_values(|s: String| s@),
    {
        let mut out: Vec<Vec<char>> = Vec::new();
        let mut i: usize = 0;
        while i < lines.len()
            invariant
                0 <= i <= lines@.len(),
                out@.len() == i,
                forall|j: int| 0 <= j < i ==> (#[trigger] out@[j])@ == lines@[j]@,
            decreases lines@.len() - i,
        {
            out.push(chars_of(lines[i].as_str()));
            i += 1;
        }
        if out.len() == 0 {
            out.push(Vec::new());
        }
        let r = TextArea { lines: out, cursor_x: 0, cursor_y: 0, style: white_text_style() };
        proof {
            if lines@.len() > 0 {
                assert(r@.lines =~= lines@.map_values(|s: String| s@));
            } else {
                assert(r@.lines =~= seq![Seq::<char>::empty()]);
            }
        }
        r
    }

    /// The lines, as strings.
    pub fn get_lines(&self) -> (r: Vec<String>)
        ensures
            r@.map_values(|s: String| s@) == self@.lines,
    {
        let mut out: Vec<String> = Vec::new();
        let mut i: usize = 0;
        while i < self.lines.len()
            invariant
                0 <= i <= self.lines@.len(),
                out@.len() == i,
                forall|j: int| 0 <= j < i ==> (#[trigger] out@[j])@ == self.lines@[j]@,
            decreases self.lines@.len() - i,
        {
            out.push(string_of(self.lines[i].as_slice()));
            i += 1;
        }
        assert(out@.map_values(|s: String| s@) =~= self@.lines);
        out
    }

    /// The cursor's column, saturated to the range of `u16`.
    pub fn get_cursor_x(&self, _area: Rect) -> (r: u16)
        ensures
            r == min(self@.col, u16::MAX as int),
    {
        if self.cursor_x > u16::MAX as usize {
            u16::MAX
        } else {
            self.cursor_x as u16
        }
    }

    /// The cursor's row, saturated to the range of `u16`.
    pub fn get_cursor_y(&self, _area: Rect) -> (r: u16)
        ensures
            r == min(self@.row, u16::MAX as int),
    {
        if self.cursor_y > u16::MAX as usize {
            u16::MAX
        } else {
            self.cursor_y as u16
        }
    }

    /// The cursor as (row, column).
    pub fn cursor_position(&self) -> (r: (usize, usize))
        ensures
            r.0 == self@.row,
            r.1 == self@.col,
    {
        (self.cursor_y, self.cursor_x)
    }

    /// The style the text is drawn in.
    pub fn style(&self) -> (r: Style)
        ensures
            r == self.spec_style(),
    {
        self.style
    }

    pub closed spec fn spec_style(&self) -> Style {
        self.style
    }

    /// Set the style the text is drawn in; text and cursor stay.
    pub fn set_style(self, style: Style) -> (r: Self)
        ensures
            r@ == self@,
            r.spec_style() == style,
    {
        let mut s = self;
        s.style = style;
        s
    }

    /// Move the cursor one unit to the right
    pub fn move_cursor_right(&mut self)
        requires
            old(self).wf(),
        ensures
            final(self)@ == old(self)@.move_right(),
            final(self).wf(),
    {
        let n = self.lines[self.cursor_y].len();
        if self.cursor_x == n {
            if self.cursor_y == self.lines.len() - 1 {
                return;
            }
            self.cursor_y += 1;
            self.cursor_x = 0;
        } else {
            self.cursor_x += 1;
        }
    }
    /// Move the cursor one unit to the left
    pub fn move_cursor_left(&mut self)
        requires
            old(self).wf(),
        ensures
            final(self)@ == old(self)@.move_left(),
            final(self).wf(),
    {
        if self.cursor_x == 0 {
            if self.cursor_y == 0 {
                return;
            }
            self.cursor_y -= 1;
            self.move_cursor_to_end();
        } else {
            self.cursor_x -= 1;
        }
    }

    /// Move the cursor one unit up
    pub fn move_cursor_up(&mut self)
        requires
            old(self).wf(),
        ensures
            final(self)@ == old(self)@.move_up(),
            final(self).wf(),
    {
        if self.cursor_y > 0 {
            self.cursor_y -= 1;
            let n = self.lines[self.cursor_y].len();
            if n < self.cursor_x {
                self.cursor_x = n;
            }
        }
    }

    /// Move the cursor one unit down
    pub fn move_cursor_down(&mut self)
        requires
            old(self).wf(),
        ensures
            final(self)@ == old(self)@.move_down(),
            final(self).wf(),
    {
        let count = self.lines.len();
        if self.cursor_y + 1 < count {
            self.cursor_y += 1;
            let n = self.lines[self.cursor_y].len();
            if n < self.cursor_x {
                self.cursor_x = n;
            }
        }
    }

    /// Move cursor to the end of the current line
    pub fn move_cursor_to_end(&mut self)
        requires
            old(self)@.lines.len() >= 1,
            0 <= old(self)@.row < old(self)@.lines.len(),
        ensures
            final(self)@ == old(self)@.move_to_end(),
            final(self).wf(),
    {
        self.cursor_x = self.lines[self.cursor_y].len();
    }

    /// Insert a single character at the current cursor position
    pub fn insert_character(&mut self, c: char)
        requires
            old(self).wf(),
        ensures
            final(self)@ == old(self)@.insert_char(c),
            final(self).wf(),
    {
        let y = self.cursor_y;
        self.lines[y].insert(self.cursor_x, c);
        // The line is now longer than the cursor's column, so the step fits.
        let len = self.lines[y].len();
        proof {
            assert(self.cursor_x < len);
        }
        self.cursor_x += 1;
        assert(self@.lines =~= old(self)@.insert_char(c).lines);
    }

    /// Split the current line at the cursor; the cursor moves to the start of
    /// the new line.
    pub fn insert_new_line(&mut self)
        requires
            old(self).wf(),
        ensures
            final(self)@ == old(self)@.insert_new_line(),
            final(self).wf(),
    {
        let y = self.cursor_y;
        // The row is below the line count, so the next row's index fits.
        let count = self.lines.len();
        proof {
            assert(y < count);
        }
        let rest = self.lines[y].split_off(self.cursor_x);
        self.lines.insert(y + 1, rest);
        self.cursor_y = y + 1;
        self.cursor_x = 0;
        assert(self@.lines =~= old(self)@.insert_new_line().lines);
    }

    /// Delete 1 character to the left of the cursor, as `TextModel::delete_left`
    /// says, with the blank test of the current line made here.
    pub fn delete_left(&mut self)
        requires
            old(self).wf(),
        ensures
            final(self)@ == old(self)@.delete_left(old(self)@.current_line_blank()),
            final(self).wf(),
    {
        let blank = line_is_blank(self.lines[self.cursor_y].as_slice());
        self.delete_left_with_blank(blank);
    }

    /// Delete 1 character to the left of the cursor, given whether the current
    /// line is blank.
    pub fn delete_left_with_blank(&mut self, line_is_blank: bool)
        requires
            old(self).wf(),
        ensures
            final(self)@ == old(self)@.delete_left(line_is_blank),
            final(self).wf(),
    {
        if self.cursor_x == 0 && self.cursor_y == 0 {
            return;
        }
        if self.cursor_x == 0 && line_is_blank {
            self.lines.remove(self.cursor_y);
            self.cursor_y -= 1;
            self.move_cursor_to_end();
            assert(self@.lines =~= old(self)@.lines.remove(old(self)@.row));
            return;
        }
        if self.cursor_x == 0 {
            self.move_cursor_left();
            return;
        }
        self.move_cursor_left();
        let y = self.cursor_y;
        self.lines[y].remove(self.cursor_x);
        assert(self@.lines =~= old(self)@.delete_left(line_is_blank).lines);
    }
}

} // verus!
