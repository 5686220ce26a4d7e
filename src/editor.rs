//! # Editor
//!
//! The editing session: the text, the rows a save writes, the mode, and the
//! dispatch of key input.

use crate::error::Error;
use crate::input::{Input, Key};
use crate::row::{
    decode_bytes, lemma_join_records, records,
    split_records, terminated, Row, NEWLINE,
};
use crate::textarea::{TextArea, TextModel};
use vstd::prelude::*;
use vstd::utf8::{decode_utf8, decode_utf8_encode_utf8, encode_utf8, valid_utf8};

verus! {

broadcast use vstd::seq_lib::group_seq_properties;

/// The two editing modes.
#[derive(Clone, Copy, PartialEq, Eq, Debug, Structural)]
pub enum EditorMode {
    Normal,
    Insert,
}

impl Default for EditorMode {
    fn default() -> (r: Self)
        ensures
            r == EditorMode::Normal,
    {
        EditorMode::Normal
    }
}

impl EditorMode {
    /// The mode's name as the status line shows it.
    pub fn to_string(&self) -> (r: String)
        ensures
            *self == EditorMode::Normal ==> r@ == "NORMAL"@,
            *self == EditorMode::Insert ==> r@ == "INSERT"@,
    {
        match self {
            EditorMode::Normal => "NORMAL".to_owned(),
            EditorMode::Insert => "INSERT".to_owned(),
        }
    }
}

/// What a key press did, or asks the caller to do.
#[derive(Clone, Copy, PartialEq, Eq, Debug, Structural)]
pub enum Action {
    /// The cursor was asked to move; the text is unchanged.
    CursorMove,
    /// The text was edited.
    BufferMutated,
    /// The mode changed.
    ModeChanged,
    /// The caller is to write the saved bytes to the file.
    SaveRequested,
    /// The caller is to end the session.
    QuitRequested,
    /// Nothing happened.
    Ignored,
}

impl Action {
    /// Whether the text was edited, so that what is drawn from it is stale.
    pub fn is_mutation(&self) -> (r: bool)
        ensures
            r == (*self == Action::BufferMutated),
    {
        match self {
            Action::BufferMutated => true,
            _ => false,
        }
    }
}

/// The bytes a file holds for one line: its UTF-8 encoding and a terminator.
pub open spec fn line_bytes(l: Seq<char>) -> Seq<u8> {
    encode_utf8(l).push(NEWLINE)
}

/// The bytes of a file holding `lines`: each line's bytes, in order.
pub open spec fn file_bytes(lines: Seq<Seq<char>>) -> Seq<u8> {
    lines.map_values(|l: Seq<char>| line_bytes(l)).flatten()
}

/// The row of one line: its UTF-8 encoding, always followed by a terminator.
fn line_row(text: &str) -> (r: Row)
    ensures
        r@ == line_bytes(text@),
{
    let bytes = text.as_bytes();
    let mut v: Vec<u8> = Vec::new();
    let mut i: usize = 0;
    while i < bytes.len()
        invariant
            0 <= i <= bytes@.len(),
            v@ == bytes@.take(i as int),
        decreases bytes@.len() - i,
    {
        v.push(bytes[i]);
        i += 1;
        assert(v@ =~= bytes@.take(i as int));
    }
    assert(v@ =~= bytes@);
    v.push(NEWLINE);
    Row::from_vec(v)
}

/// The lines that a file's bytes load as: one per record, decoded; a file
/// with no records gives one empty line.
pub open spec fn loaded_lines(b: Seq<u8>) -> Seq<Seq<char>> {
    if records(b).len() == 0 {
        seq![Seq::<char>::empty()]
    } else {
        records(b).map_values(|r: Seq<u8>| decode_utf8(r))
    }
}

/// Every record of `b` is valid UTF-8.
pub open spec fn decodable(b: Seq<u8>) -> bool {
    forall|i: int| 0 <= i < records(b).len() ==> valid_utf8(#[trigger] records(b)[i])
}

/// The first record of `b` that is not valid UTF-8 is at `i`.
pub open spec fn first_undecodable(b: Seq<u8>, i: int) -> bool {
    &&& 0 <= i < records(b).len()
    &&& !valid_utf8(records(b)[i])
    &&& forall|j: int| 0 <= j < i ==> valid_utf8(#[trigger] records(b)[j])
}

/// A key that moves the cursor in normal mode.
pub open spec fn is_motion_key(key: Key) -> bool {
    match key {
        Key::Character(c) => c == 'h' || c == 'j' || c == 'k' || c == 'l',
        Key::LeftArrow | Key::RightArrow | Key::UpArrow | Key::DownArrow => true,
        _ => false,
    }
}

/// What a key press in normal mode asks for.
pub open spec fn normal_action(input: Input) -> Action {
    match input.key {
        Key::Character(c) => if c == 'Q' && input.shift {
            Action::QuitRequested
        } else if c == 'W' {
            Action::SaveRequested
        } else if c == 'i' {
            Action::ModeChanged
        } else if is_motion_key(input.key) {
            Action::CursorMove
        } else {
            Action::Ignored
        },
        _ => if is_motion_key(input.key) {
            Action::CursorMove
        } else {
            Action::Ignored
        },
    }
}

/// The text after a key press in normal mode.
pub open spec fn normal_text(t: TextModel, input: Input) -> TextModel {
    match input.key {
        Key::Character('l') | Key::RightArrow => t.move_right(),
        Key::Character('h') | Key::LeftArrow => t.move_left(),
        Key::Character('j') | Key::DownArrow => t.move_down(),
        Key::Character('k') | Key::UpArrow => t.move_up(),
        _ => t,
    }
}

/// What a key press in insert mode does.
pub open spec fn insert_action(t: TextModel, input: Input) -> Action {
    match input.key {
        Key::Escape => Action::ModeChanged,
        Key::Character(_) | Key::Enter => Action::BufferMutated,
        Key::Backspace => if t.row == 0 && t.col == 0 {
            Action::Ignored
        } else {
            Action::BufferMutated
        },
        _ => Action::Ignored,
    }
}

/// The text after a key press in insert mode.
pub open spec fn insert_text(t: TextModel, input: Input) -> TextModel {
    match input.key {
        Key::Character(c) => t.insert_char(c),
        Key::Backspace => t.delete_left(t.current_line_blank()),
        Key::Enter => t.insert_new_line(),
        _ => t,
    }
}

/// What a key press in `mode` does.
pub open spec fn action_of(mode: EditorMode, t: TextModel, input: Input) -> Action {
    match mode {
        EditorMode::Normal => normal_action(input),
        EditorMode::Insert => insert_action(t, input),
    }
}

/// The text after a key press in `mode`.
pub open spec fn text_after(mode: EditorMode, t: TextModel, input: Input) -> TextModel {
    match mode {
        EditorMode::Normal => normal_text(t, input),
        EditorMode::Insert => insert_text(t, input),
    }
}

/// The mode after a key press in `mode`.
pub open spec fn mode_after(mode: EditorMode, input: Input) -> EditorMode {
    match mode {
        EditorMode::Normal => if input.key == Key::Character('i') {
            EditorMode::Insert
        } else {
            EditorMode::Normal
        },
        EditorMode::Insert => if input.key == Key::Escape {
            EditorMode::Normal
        } else {
            EditorMode::Insert
        },
    }
}

/// The `Editor` struct contains the state and configuration of the editor
pub struct Editor {
    /// The current editing mode
    mode: EditorMode,
    /// The individual lines for the open file
    rows: Vec<Row>,
    /// The text area component
    textarea: TextArea,
    /// The file currently open in the editor
    file_name: Option<String>,
    /// Current status text
    status_message: String,
}

impl Editor {
    pub closed spec fn mode_spec(&self) -> EditorMode {
        self.mode
    }

    /// The text and the cursor.
    pub closed spec fn text(&self) -> TextModel {
        self.textarea@
    }

    pub closed spec fn file_name_spec(&self) -> Option<Seq<char>> {
        match self.file_name {
            Some(s) => Some(s@),
            None => None,
        }
    }

    pub closed spec fn status_spec(&self) -> Seq<char> {
        self.status_message@
    }

    /// The text is well formed and the rows hold it as a file would.
    pub closed spec fn wf(&self) -> bool {
        &&& self.textarea.wf()
        &&& self.rows@.map_values(|r: Row| r@) == self.textarea@.lines.map_values(
            |l: Seq<char>| line_bytes(l),
        )
    }

    /// The bytes that a save writes.
    pub open spec fn saved_bytes(&self) -> Seq<u8> {
        file_bytes(self.text().lines)
    }

    /// Rebuild the rows from the given lines: one row per line, in order, each
    /// the line's bytes and a terminator; the previous rows are dropped.
    fn update_rows(&mut self, lines: Vec<String>)
        ensures
            final(self).rows@.map_values(|r: Row| r@) == lines@.map_values(|s: String| s@).map_values(
                |l: Seq<char>| line_bytes(l),
            ),
            final(self).mode == old(self).mode,
            final(self).textarea == old(self).textarea,
            final(self).file_name == old(self).file_name,
            final(self).status_message == old(self).status_message,
    {
        let ghost lv = lines@.map_values(|s: String| s@);
        let mut rows: Vec<Row> = Vec::new();
        let mut i: usize = 0;
        while i < lines.len()
            invariant
                0 <= i <= lines@.len(),
                lv == lines@.map_values(|s: String| s@),
                rows@.map_values(|r: Row| r@) == lv.take(i as int).map_values(
                    |l: Seq<char>| line_bytes(l),
                ),
            decreases lines@.len() - i,
        {
            let text = lines[i].as_str();
            let row = line_row(text);
            assert(lv[i as int] == text@);
            let ghost prev = rows@;
            rows.push(row);
            proof {
                let f = |l: Seq<char>| line_bytes(l);
                assert(rows@.map_values(|r: Row| r@) =~= prev.map_values(|r: Row| r@).push(row@));
                assert(lv.take(i + 1) =~= lv.take(i as int).push(lv[i as int]));
                assert(lv.take(i + 1).map_values(f) =~= lv.take(i as int).map_values(f).push(
                    f(lv[i as int]),
                ));
            }
            i += 1;
        }
        assert(lv.take(i as int) =~= lv);
        self.rows = rows;
    }

    /// A session with one empty line, in normal mode, with no file.
    pub fn new() -> (r: Self)
        ensures
            r.wf(),
            r.mode_spec() == EditorMode::Normal,
            r.text().lines == seq![Seq::<char>::empty()],
            r.text().row == 0,
            r.text().col == 0,
            r.file_name_spec() is None,
            r.status_spec().len() == 0,
    {
        let textarea = TextArea::new(Vec::new());
        let lines = textarea.get_lines();
        let mut e = Editor {
            mode: EditorMode::Normal,
            rows: Vec::new(),
            textarea,
            file_name: None,
            status_message: String::new(),
        };
        e.update_rows(lines);
        e
    }

    /// The bytes to write to the file: every row in order.
    pub fn save_bytes(&self) -> (r: Vec<u8>)
        requires
            self.wf(),
        ensures
            r@ == self.saved_bytes(),
    {
        let ghost rv = self.rows@.map_values(|r: Row| r@);
        let mut out: Vec<u8> = Vec::new();
        let mut i: usize = 0;
        while i < self.rows.len()
            invariant
                0 <= i <= self.rows@.len(),
                rv == self.rows@.map_values(|r: Row| r@),
                out@ == rv.take(i as int).flatten(),
            decreases self.rows@.len() - i,
        {
            let bytes = self.rows[i].get_bytes();
            let mut j: usize = 0;
            let ghost before = out@;
            while j < bytes.len()
                invariant
                    0 <= j <= bytes@.len(),
                    out@ == before + bytes@.take(j as int),
                decreases bytes@.len() - j,
            {
                out.push(bytes[j]);
                j += 1;
                assert(out@ =~= before + bytes@.take(j as int));
            }
            proof {
                assert(bytes@.take(j as int) =~= bytes@);
                assert(rv.take(i + 1) =~= rv.take(i as int).push(rv[i as int]));
                rv.take(i as int).lemma_flatten_push(rv[i as int]);
            }
            i += 1;
        }
        assert(rv.take(i as int) =~= rv);
        out
    }
    /// The current editing mode.
    pub fn mode(&self) -> (r: EditorMode)
        ensures
            r == self.mode_spec(),
    {
        self.mode
    }

    /// The text area.
    pub fn textarea(&self) -> (r: &TextArea)
        ensures
            r@ == self.text(),
    {
        &self.textarea
    }

    /// The file the session saves to, if any.
    pub fn file_name(&self) -> (r: &Option<String>)
        ensures
            r is Some <==> self.file_name_spec() is Some,
            r matches Some(s) ==> self.file_name_spec() == Some(s@),
    {
        &self.file_name
    }

    /// Set the file the session saves to.
    pub fn set_file_name(&mut self, file_name: Option<String>)
        requires
            old(self).wf(),
        ensures
            final(self).wf(),
            file_name is None ==> final(self).file_name_spec() is None,
            file_name matches Some(s) ==> final(self).file_name_spec() == Some(s@),
            final(self).mode_spec() == old(self).mode_spec(),
            final(self).text() == old(self).text(),
            final(self).status_spec() == old(self).status_spec(),
    {
        self.file_name = file_name;
    }

    /// The status text.
    pub fn status_message(&self) -> (r: &str)
        ensures
            r@ == self.status_spec(),
    {
        self.status_message.as_str()
    }

    /// Set the status text.
    pub fn set_status_message(&mut self, message: String)
        requires
            old(self).wf(),
        ensures
            final(self).wf(),
            final(self).status_spec() == message@,
            final(self).mode_spec() == old(self).mode_spec(),
            final(self).text() == old(self).text(),
            final(self).file_name_spec() == old(self).file_name_spec(),
    {
        self.status_message = message;
    }

    fn set_insert_mode(&mut self)
        ensures
            *final(self) == (Editor { mode: EditorMode::Insert, ..*old(self) }),
    {
        self.mode = EditorMode::Insert;
    }

    fn set_normal_mode(&mut self)
        ensures
            *final(self) == (Editor { mode: EditorMode::Normal, ..*old(self) }),
    {
        self.mode = EditorMode::Normal;
    }

    /// Handle a key input with default key mappings: what it did, or asks
    /// the caller to do. The rows follow every edit of the text.
    pub fn handle_input(&mut self, input: Input) -> (r: Action)
        requires
            old(self).wf(),
        ensures
            final(self).wf(),
            r == action_of(old(self).mode_spec(), old(self).text(), input),
            final(self).mode_spec() == mode_after(old(self).mode_spec(), input),
            final(self).text() == text_after(old(self).mode_spec(), old(self).text(), input),
            final(self).file_name_spec() == old(self).file_name_spec(),
            final(self).status_spec() == old(self).status_spec(),
    {
        let r = match self.mode {
            EditorMode::Normal => self.handle_normal_input(input),
            EditorMode::Insert => self.handle_insert_input(input),
        };
        if r.is_mutation() {
            let lines = self.textarea.get_lines();
            self.update_rows(lines);
        }
        r
    }

    fn handle_normal_input(&mut self, input: Input) -> (r: Action)
        requires
            old(self).wf(),
            old(self).mode == EditorMode::Normal,
        ensures
            r == normal_action(input),
            final(self).textarea.wf(),
            final(self).textarea@ == normal_text(old(self).textarea@, input),
            final(self).mode == mode_after(EditorMode::Normal, input),
            final(self).rows == old(self).rows,
            final(self).file_name == old(self).file_name,
            final(self).status_message == old(self).status_message,
    {
        match input.key {
            Key::Character(c) => {
                if c == 'Q' && input.shift {
                    Action::QuitRequested
                } else if c == 'W' {
                    Action::SaveRequested
                } else if c == 'i' {
                    self.set_insert_mode();
                    Action::ModeChanged
                } else if c == 'l' {
                    self.textarea.move_cursor_right();
                    Action::CursorMove
                } else if c == 'h' {
                    self.textarea.move_cursor_left();
                    Action::CursorMove
                } else if c == 'j' {
                    self.textarea.move_cursor_down();
                    Action::CursorMove
                } else if c == 'k' {
                    self.textarea.move_cursor_up();
                    Action::CursorMove
                } else {
                    Action::Ignored
                }
            },
            Key::RightArrow => {
                self.textarea.move_cursor_right();
                Action::CursorMove
            },
            Key::LeftArrow => {
                self.textarea.move_cursor_left();
                Action::CursorMove
            },
            Key::DownArrow => {
                self.textarea.move_cursor_down();
                Action::CursorMove
            },
            Key::UpArrow => {
                self.textarea.move_cursor_up();
                Action::CursorMove
            },
            _ => Action::Ignored,
        }
    }

    fn handle_insert_input(&mut self, input: Input) -> (r: Action)
        requires
            old(self).wf(),
            old(self).mode == EditorMode::Insert,
        ensures
            r == insert_action(old(self).textarea@, input),
            final(self).textarea.wf(),
            final(self).textarea@ == insert_text(old(self).textarea@, input),
            final(self).mode == mode_after(EditorMode::Insert, input),
            final(self).rows == old(self).rows,
            final(self).file_name == old(self).file_name,
            final(self).status_message == old(self).status_message,
    {
        match input.key {
            Key::Escape => {
                self.set_normal_mode();
                Action::ModeChanged
            },
            Key::Character(c) => {
                self.textarea.insert_character(c);
                Action::BufferMutated
            },
            Key::Backspace => {
                let (row, col) = self.textarea.cursor_position();
                if row == 0 && col == 0 {
                    Action::Ignored
                } else {
                    self.textarea.delete_left();
                    Action::BufferMutated
                }
            },
            Key::Enter => {
                self.textarea.insert_new_line();
                Action::BufferMutated
            },
            _ => Action::Ignored,
        }
    }

    /// Replace the text by the lines of a file's bytes, the cursor at the
    /// start. Where a line is not valid UTF-8, nothing changes and the first
    /// such line is named.
    pub fn load_bytes(&mut self, bytes: &[u8]) -> (r: Result<(), Error>)
        requires
            old(self).wf(),
        ensures
            final(self).wf(),
            r is Ok <==> decodable(bytes@),
            r is Ok ==> final(self).text().lines == loaded_lines(bytes@)
                && final(self).text().row == 0 && final(self).text().col == 0
                && final(self).mode_spec() == old(self).mode_spec()
                && final(self).file_name_spec() == old(self).file_name_spec()
                && final(self).status_spec() == old(self).status_spec(),
            r is Ok ==> final(self).saved_bytes() == terminated(bytes@),
            r is Err ==> *final(self) == *old(self),
            r matches Err(e) ==> (e matches Error::Decode(i) && first_undecodable(bytes@, i as int)),
    {
        let recs = split_records(bytes);
        let ghost rv = recs@.map_values(|v: Vec<u8>| v@);
        let mut lines: Vec<String> = Vec::new();
        let mut i: usize = 0;
        while i < recs.len()
            invariant
                0 <= i <= recs@.len(),
                rv == recs@.map_values(|v: Vec<u8>| v@),
                rv == records(bytes@),
                *self == *old(self),
                self.wf(),
                lines@.len() == i,
                forall|j: int| 0 <= j < i ==> valid_utf8(#[trigger] rv[j]),
                forall|j: int| 0 <= j < i ==> (#[trigger] lines@[j])@ == decode_utf8(rv[j]),
            decreases recs@.len() - i,
        {
            match decode_bytes(recs[i].as_slice()) {
                Some(s) => lines.push(s),
                None => {
                    assert(!valid_utf8(records(bytes@)[i as int]));
                    return Err(Error::Decode(i));
                },
            }
            i += 1;
        }
        let style = self.textarea.style();
        let textarea = TextArea::new(lines).set_style(style);
        let text = textarea.get_lines();
        proof {
            if rv.len() > 0 {
                assert(lines@.map_values(|s: String| s@) =~= loaded_lines(bytes@));
            }
            lemma_load_then_save(bytes@);
        }
        self.textarea = textarea;
        self.update_rows(text);
        Ok(())
    }
}

/// A well-formed session has at least one line, and its cursor stands on an
/// existing row, at a column from 0 up to that row's length.
pub proof fn lemma_session_bounds(e: &Editor)
    requires
        e.wf(),
    ensures
        e.text().lines.len() >= 1,
        0 <= e.text().row < e.text().lines.len(),
        0 <= e.text().col <= e.text().lines[e.text().row].len(),
{
}

/// Every key press, in either mode, takes a well-formed text (at least one
/// line, the cursor within it) to a well-formed text.
pub proof fn lemma_key_keeps_text_wf(mode: EditorMode, t: TextModel, input: Input)
    requires
        t.wf(),
    ensures
        text_after(mode, t, input).wf(),
{
    let n = t.lines.len();
    let line = t.lines[t.row];
    match input.key {
        Key::Character(c) => {
            assert(t.insert_char(c).lines[t.row] == line.insert(t.col, c));
        },
        Key::Enter => {
            let u = t.insert_new_line();
            assert(u.lines.len() == n + 1);
            assert(u.lines[t.row + 1] == line.skip(t.col));
        },
        Key::Backspace => {
            let u = t.delete_left(t.current_line_blank());
            if t.col > 0 {
                assert(u.lines[t.row] == line.remove(t.col - 1));
            } else if t.row > 0 {
                assert(u.lines[t.row - 1] == t.lines[t.row - 1]);
            }
        },
        _ => {},
    }
}

/// Loading a file's bytes and saving without an edit writes the same bytes,
/// with a terminator added at the end where the last line had none.
pub proof fn lemma_load_then_save(b: Seq<u8>)
    requires
        decodable(b),
    ensures
        file_bytes(loaded_lines(b)) == terminated(b),
{
    let rs = records(b);
    if b.len() == 0 {
        let l = seq![Seq::<char>::empty()];
        assert(encode_utf8(Seq::<char>::empty()) =~= Seq::<u8>::empty());
        let m = l.map_values(|l: Seq<char>| line_bytes(l));
        assert(m =~= seq![seq![NEWLINE]]);
        m.lemma_flatten_one_element();
        assert(file_bytes(l) =~= terminated(b));
    } else {
        lemma_join_records(b);
        assert(rs.len() > 0) by {
            let t = b.drop_first();
            if b[0] != NEWLINE && records(t).len() != 0 {
                assert(rs.len() == records(t).len());
            }
        }
        let lines = rs.map_values(|r: Seq<u8>| decode_utf8(r));
        assert(lines.map_values(|l: Seq<char>| line_bytes(l)) =~= rs.map_values(
            |r: Seq<u8>| r.push(NEWLINE),
        )) by {
            assert forall|i: int| 0 <= i < rs.len() implies line_bytes(lines[i]) == rs[i].push(
                NEWLINE,
            ) by {
                assert(valid_utf8(rs[i]));
                decode_utf8_encode_utf8(rs[i]);
            }
        }
    }
}

/// A key press that edits nothing leaves the lines, and so the saved bytes, as
/// they were: two saves with no edit between them write the same bytes.
pub proof fn lemma_save_without_edit(mode: EditorMode, t: TextModel, input: Input)
    requires
        t.wf(),
        action_of(mode, t, input) != Action::BufferMutated,
    ensures
        text_after(mode, t, input).lines == t.lines,
        file_bytes(text_after(mode, t, input).lines) == file_bytes(t.lines),
{
}

/// In insert mode no key press, whatever its modifiers, asks to quit: a
/// character key (shift-Q included) is typed into the text at the cursor, and
/// the mode stays.
pub proof fn lemma_insert_mode_never_quits(t: TextModel, input: Input)
    ensures
        action_of(EditorMode::Insert, t, input) != Action::QuitRequested,
        input.key matches Key::Character(c) ==> {
            &&& action_of(EditorMode::Insert, t, input) == Action::BufferMutated
            &&& text_after(EditorMode::Insert, t, input) == t.insert_char(c)
            &&& mode_after(EditorMode::Insert, input) == EditorMode::Insert
        },
{
}

} // verus!
