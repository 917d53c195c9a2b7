//! The single-line text input overlay: a buffer of characters, a cursor in
//! it, and the editing that each key does.

use crate::key::Key;
use crate::layout::Rect;
use crate::style::{Color, Padding};
use crate::text::{to_chars, to_text};
use vstd::prelude::*;
use vstd::string::StringExecFns;

verus! {

/// What an input is for: a new task, or a new title for a task.
#[derive(Default, Debug, Clone, Copy, PartialEq, Eq, Structural)]
pub enum InputMode {
    #[default]
    Insert,
    Edit,
}

/// What a key press meant to an input.
#[derive(Debug, Clone)]
pub enum InputResult {
    /// The input stays open.
    Continue,
    /// The text was submitted.
    Submit(String),
    /// The input was given up.
    Cancel,
}

/// How an input is drawn, and how many characters it takes.
#[derive(Clone, Copy, Debug, PartialEq, Eq, Structural)]
pub struct InputBoxStyles {
    pub fg_color: Color,
    pub padding: Padding,
    pub max_chars: usize,
    pub show_title: bool,
}

/// A text input overlay. The cursor is a position between characters of the
/// buffer: zero is before the first one, the buffer's length after the last.
#[derive(Debug, Clone)]
pub struct InputBox {
    pub title: Option<String>,
    pub buffer: Vec<char>,
    pub cursor: usize,
    pub mode: InputMode,
    pub styles: InputBoxStyles,
}

/// The number of characters that an input takes unless told otherwise.
pub const DEFAULT_MAX_CHARS: usize = 46;

/// The buffer after a key. `Delete` removes the character at the cursor,
/// `Backspace` the one before it, a character key inserts its character at
/// the cursor while the buffer holds fewer than `max_chars`.
pub open spec fn buffer_after(buffer: Seq<char>, cursor: int, max_chars: nat, key: Key) -> Seq<
    char,
> {
    match key {
        Key::Delete => if cursor < buffer.len() {
            buffer.remove(cursor)
        } else {
            buffer
        },
        Key::Backspace => if cursor > 0 {
            buffer.remove(cursor - 1)
        } else {
            buffer
        },
        Key::Char(c) => if buffer.len() < max_chars {
            buffer.insert(cursor, c)
        } else {
            buffer
        },
        _ => buffer,
    }
}

/// The cursor after a key. `Backspace` and `Left` move it one back unless it
/// is at the start, `Right` one ahead unless it is at the end, an inserted
/// character one ahead.
pub open spec fn cursor_after(buffer: Seq<char>, cursor: int, max_chars: nat, key: Key) -> int {
    match key {
        Key::Backspace | Key::Left => if cursor > 0 {
            cursor - 1
        } else {
            cursor
        },
        Key::Right => if cursor < buffer.len() {
            cursor + 1
        } else {
            cursor
        },
        Key::Char(_) => if buffer.len() < max_chars {
            cursor + 1
        } else {
            cursor
        },
        _ => cursor,
    }
}

/// No key makes a buffer longer than the limit, unless it was longer before;
/// and no key moves the cursor out of the buffer.
pub proof fn edit_keeps_bounds(buffer: Seq<char>, cursor: int, max_chars: nat, key: Key)
    requires
        0 <= cursor <= buffer.len(),
    ensures
        buffer.len() <= max_chars ==> buffer_after(buffer, cursor, max_chars, key).len()
            <= max_chars,
        buffer_after(buffer, cursor, max_chars, key).len() <= buffer.len() + 1,
        0 <= cursor_after(buffer, cursor, max_chars, key) <= buffer_after(
            buffer,
            cursor,
            max_chars,
            key,
        ).len(),
{
}

/// `Enter` submits a buffer that is not empty.
pub open spec fn submits(buffer: Seq<char>, key: Key) -> bool {
    key == Key::Enter && buffer.len() > 0
}

/// The title that an input of this mode has when it names none.
pub open spec fn mode_title(mode: InputMode) -> Seq<char> {
    match mode {
        InputMode::Edit => " Rename a todo "@,
        InputMode::Insert => " Append a todo "@,
    }
}

impl InputBox {
    /// The cursor lies within the buffer.
    pub open spec fn wf(self) -> bool {
        self.cursor <= self.buffer@.len()
    }

    /// The title on the input's border: none where titles are switched off,
    /// else the input's own title between two spaces, else the title of its
    /// mode.
    pub open spec fn shown_title(self) -> Option<Seq<char>> {
        if !self.styles.show_title {
            None
        } else {
            match self.title {
                Some(t) => Some(" "@ + t@ + " "@),
                None => Some(mode_title(self.mode)),
            }
        }
    }

    /// The column of the terminal cursor when the input is drawn in `area`:
    /// the cursor and both paddings right of the area's left edge, held at
    /// the greatest column.
    pub open spec fn cursor_column(self, area: Rect) -> int {
        let column = area.x + self.cursor + self.styles.padding.right + self.styles.padding.left;
        if column > u16::MAX {
            u16::MAX as int
        } else {
            column
        }
    }

    /// The row of the terminal cursor when the input is drawn in `area`: the
    /// one below the area's top, held at the greatest row.
    pub open spec fn cursor_row(area: Rect) -> int {
        if area.y < u16::MAX {
            area.y + 1
        } else {
            area.y as int
        }
    }

    /// An empty input for a new task.
    pub fn insert() -> (input: InputBox)
        ensures
            input.wf(),
            input.buffer@ == Seq::<char>::empty(),
            input.cursor == 0,
            input.title is None,
            input.mode == InputMode::Insert,
            input.styles == (InputBoxStyles {
                fg_color: Color::Rgb(245, 161, 145),
                padding: Padding { left: 1, right: 1, top: 0, bottom: 0 },
                max_chars: DEFAULT_MAX_CHARS,
                show_title: true,
            }),
    {
        InputBox {
            buffer: Vec::new(),
            title: None,
            cursor: 0,
            mode: InputMode::Insert,
            styles: InputBoxStyles {
                fg_color: Color::Rgb(245, 161, 145),
                padding: Padding::new(1, 1, 0, 0),
                max_chars: DEFAULT_MAX_CHARS,
                show_title: true,
            },
        }
    }

    /// An input that starts with the text `initial`, the cursor behind it.
    pub fn edit(initial: &str) -> (input: InputBox)
        ensures
            input.wf(),
            input.buffer@ == initial@,
            input.cursor == initial@.len(),
            input.title is None,
            input.mode == InputMode::Edit,
            input.styles == (InputBoxStyles {
                fg_color: Color::Rgb(234, 141, 165),
                padding: Padding { left: 1, right: 1, top: 0, bottom: 0 },
                max_chars: DEFAULT_MAX_CHARS,
                show_title: true,
            }),
    {
        let buffer: Vec<char> = to_chars(initial);
        let cursor: usize = buffer.len();
        InputBox {
            buffer,
            title: None,
            cursor,
            mode: InputMode::Edit,
            styles: InputBoxStyles {
                fg_color: Color::Rgb(234, 141, 165),
                padding: Padding::new(1, 1, 0, 0),
                max_chars: DEFAULT_MAX_CHARS,
                show_title: true,
            },
        }
    }

    /// The buffer as a string.
    pub fn text(&self) -> (text: String)
        ensures
            text@ == self.buffer@,
    {
        to_text(&self.buffer, 0, self.buffer.len())
    }

    /// Takes one key. `Enter` submits the buffer unless it is empty, `Esc`
    /// cancels; neither changes the input. The other keys edit the buffer or
    /// move the cursor, and the input stays open.
    pub fn handle_key(&mut self, key: Key) -> (r: InputResult)
        requires
            old(self).wf(),
        ensures
            final(self).wf(),
            final(self).buffer@ == buffer_after(
                old(self).buffer@,
                old(self).cursor as int,
                old(self).styles.max_chars as nat,
                key,
            ),
            final(self).cursor == cursor_after(
                old(self).buffer@,
                old(self).cursor as int,
                old(self).styles.max_chars as nat,
                key,
            ),
            final(self).title == old(self).title,
            final(self).mode == old(self).mode,
            final(self).styles == old(self).styles,
            match r {
                InputResult::Submit(text) => submits(old(self).buffer@, key) && text@ == old(
                    self,
                ).buffer@,
                InputResult::Cancel => key == Key::Esc,
                InputResult::Continue => !submits(old(self).buffer@, key) && key != Key::Esc,
            },
    {
        match key {
            Key::Enter => {
                if self.buffer.len() > 0 {
                    return InputResult::Submit(self.text());
                }
            },
            Key::Esc => {
                return InputResult::Cancel;
            },
            Key::Delete => {
                if self.cursor < self.buffer.len() {
                    self.buffer.remove(self.cursor);
                }
            },
            Key::Backspace => {
                if self.cursor > 0 {
                    self.cursor -= 1;
                    self.buffer.remove(self.cursor);
                }
            },
            Key::Left => {
                if self.cursor > 0 {
                    self.cursor -= 1;
                }
            },
            Key::Right => {
                if self.cursor < self.buffer.len() {
                    self.cursor += 1;
                }
            },
            Key::Char(c) => {
                if self.buffer.len() < self.styles.max_chars {
                    self.buffer.insert(self.cursor, c);
                    self.cursor += 1;
                }
            },
            _ => {},
        }
        InputResult::Continue
    }

    /// The title to draw on the input's border, if any.
    pub fn title_text(&self) -> (text: Option<String>)
        ensures
            match (text, self.shown_title()) {
                (Some(a), Some(b)) => a@ == b,
                (None, None) => true,
                _ => false,
            },
    {
        if self.styles.show_title {
            match &self.title {
                Some(user_title) => {
                    let mut t: String = String::from_str(" ");
                    t.append(user_title.as_str());
                    t.append(" ");
                    Some(t)
                },
                None => Some(
                    String::from_str(
                        match self.mode {
                            InputMode::Edit => " Rename a todo ",
                            InputMode::Insert => " Append a todo ",
                        },
                    ),
                ),
            }
        } else {
            None
        }
    }

    /// Where the terminal cursor stands when the input is drawn in `area`, as
    /// column and row.
    pub fn cursor_position(&self, area: Rect) -> (at: (u16, u16))
        ensures
            at.0 == self.cursor_column(area),
            at.1 == Self::cursor_row(area),
    {
        let limit: usize = u16::MAX as usize;
        let offset: usize = area.x as usize + self.styles.padding.right as usize
            + self.styles.padding.left as usize;
        let column: u16 = if self.cursor >= limit || offset + self.cursor > limit {
            u16::MAX
        } else {
            (offset + self.cursor) as u16
        };
        let row: u16 = if area.y < u16::MAX {
            area.y + 1
        } else {
            area.y
        };
        (column, row)
    }

    /// The same input with a title of its own.
    pub fn title(self, title: &str) -> (input: InputBox)
        ensures
            input.title is Some,
            input.title->0@ == title@,
            input.buffer == self.buffer,
            input.cursor == self.cursor,
            input.mode == self.mode,
            input.styles == self.styles,
    {
        let mut input = self;
        input.title = Some(String::from_str(title));
        input
    }

    /// The same input without a title.
    pub fn no_title(self) -> (input: InputBox)
        ensures
            input == (InputBox {
                styles: InputBoxStyles { show_title: false, ..self.styles },
                ..self
            }),
    {
        let mut input = self;
        input.styles.show_title = false;
        input
    }

    /// The same input in another colour.
    pub fn with_fg_color(self, color: Color) -> (input: InputBox)
        ensures
            input == (InputBox {
                styles: InputBoxStyles { fg_color: color, ..self.styles },
                ..self
            }),
    {
        let mut input = self;
        input.styles.fg_color = color;
        input
    }

    /// The same input, taking at most `max` characters.
    pub fn with_max_chars(self, max: usize) -> (input: InputBox)
        ensures
            input == (InputBox {
                styles: InputBoxStyles { max_chars: max, ..self.styles },
                ..self
            }),
    {
        let mut input = self;
        input.styles.max_chars = max;
        input
    }

    /// The same input with another padding.
    pub fn with_padding(self, padding: Padding) -> (input: InputBox)
        ensures
            input == (InputBox { styles: InputBoxStyles { padding, ..self.styles }, ..self }),
    {
        let mut input = self;
        input.styles.padding = padding;
        input
    }
}

} // verus!
