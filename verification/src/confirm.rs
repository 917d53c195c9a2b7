//! The confirmation overlay: a question with a yes and a cancel option, and
//! the action that a yes sets off.

use crate::key::Key;
use crate::layout::Rect;
use vstd::prelude::*;
use vstd::string::StringExecFns;

verus! {

/// What a confirmation does to the list once it is accepted.
#[derive(Debug, Clone)]
pub enum ConfirmAction {
    /// Append a task with this title.
    Append(String),
    /// Remove the selected task.
    Remove,
    /// Give the selected task this title.
    Rename(String),
}

/// A confirmation overlay. `selected` tells whether the yes option is
/// highlighted.
#[derive(Debug, Clone)]
pub struct Confirm {
    pub message: String,
    pub selected: bool,
    pub action: Option<ConfirmAction>,
}

/// The keys that move the highlight between the two options.
pub open spec fn is_toggle_key(key: Key) -> bool {
    key == Key::Left || key == Key::Right || key == Key::Char('h') || key == Key::Char('l')
}

/// The answer that a key gives to a confirmation whose highlight is
/// `selected`: `Enter` answers with the highlighted option, `Esc` with no,
/// any other key not at all.
pub open spec fn answer(selected: bool, key: Key) -> Option<bool> {
    match key {
        Key::Enter => Some(selected),
        Key::Esc => Some(false),
        _ => None,
    }
}

/// The highlight after a key: flipped by a toggle key, else as before.
pub open spec fn highlight_after(selected: bool, key: Key) -> bool {
    if is_toggle_key(key) {
        !selected
    } else {
        selected
    }
}

/// The highlight after a sequence of keys, pressed in order.
pub open spec fn highlight_after_keys(selected: bool, keys: Seq<Key>) -> bool
    decreases keys.len(),
{
    if keys.len() == 0 {
        selected
    } else {
        highlight_after(highlight_after_keys(selected, keys.drop_last()), keys.last())
    }
}

/// An odd number of toggle keys flips the highlight; an even number leaves
/// it where it was.
pub proof fn toggle_parity(selected: bool, keys: Seq<Key>)
    requires
        forall|i: int| 0 <= i < keys.len() ==> is_toggle_key(#[trigger] keys[i]),
    ensures
        highlight_after_keys(selected, keys) == if keys.len() % 2 == 1 {
            !selected
        } else {
            selected
        },
    decreases keys.len(),
{
    if keys.len() > 0 {
        toggle_parity(selected, keys.drop_last());
        assert(is_toggle_key(keys.last()));
    }
}

/// Where the parts of a confirmation are drawn.
#[derive(Clone, Copy, Debug, PartialEq, Eq, Structural)]
pub struct ConfirmLayout {
    /// The question.
    pub message: Rect,
    /// The two options.
    pub buttons: Rect,
}

/// The margin between a confirmation's box and its question, on every side.
pub const CONFIRM_MARGIN: u16 = 2;

/// The rows that the options of a confirmation take.
pub const BUTTON_ROWS: u16 = 2;

/// The area of the question in a confirmation drawn in `area`.
pub open spec fn message_area(area: Rect) -> Rect {
    area.shrunk(CONFIRM_MARGIN, CONFIRM_MARGIN)
}

/// The area of the options in a confirmation drawn in `area`: the last rows
/// of the question's area, or rows from its top on where it is lower than
/// they are.
pub open spec fn button_area(area: Rect) -> Rect {
    let inner = message_area(area);
    Rect {
        x: inner.x,
        y: if inner.height >= BUTTON_ROWS {
            (inner.y + inner.height - BUTTON_ROWS) as u16
        } else {
            inner.y
        },
        width: inner.width,
        height: BUTTON_ROWS,
    }
}

impl Confirm {
    /// The areas of the question and of the options of a confirmation that is
    /// drawn in `area`.
    pub fn layout(&self, area: Rect) -> (l: ConfirmLayout)
        requires
            area.fits(),
        ensures
            l.message == message_area(area),
            l.buttons == button_area(area),
    {
        let inner: Rect = area.inner(CONFIRM_MARGIN, CONFIRM_MARGIN);
        let drop: u16 = if inner.height >= BUTTON_ROWS {
            inner.height - BUTTON_ROWS
        } else {
            0
        };
        ConfirmLayout {
            message: inner,
            buttons: Rect {
                x: inner.x,
                y: inner.y + drop,
                width: inner.width,
                height: BUTTON_ROWS,
            },
        }
    }

    /// The labels of the yes and the cancel option: the highlighted one
    /// stands in brackets.
    pub fn button_labels(&self) -> (labels: (String, String))
        ensures
            labels.0@ == if self.selected {
                "[ Yes ]"@
            } else {
                "Yes"@
            },
            labels.1@ == if self.selected {
                "Cancel"@
            } else {
                "[ Cancel ]"@
            },
    {
        if self.selected {
            (String::from_str("[ Yes ]"), String::from_str("Cancel"))
        } else {
            (String::from_str("Yes"), String::from_str("[ Cancel ]"))
        }
    }

    /// A confirmation without a message or an action, with cancel
    /// highlighted.
    pub fn new() -> (c: Confirm)
        ensures
            c.message@ == Seq::<char>::empty(),
            !c.selected,
            c.action is None,
    {
        Confirm { message: String::new(), selected: false, action: None }
    }

    /// The same confirmation with a message.
    pub fn with_message(self, message: &str) -> (c: Confirm)
        ensures
            c.message@ == message@,
            c.selected == self.selected,
            c.action == self.action,
    {
        let mut c = self;
        c.message = String::from_str(message);
        c
    }

    /// The same confirmation with an action to gate.
    pub fn action(self, action: ConfirmAction) -> (c: Confirm)
        ensures
            c == (Confirm { action: Some(action), ..self }),
    {
        let mut c = self;
        c.action = Some(action);
        c
    }

    /// Takes one key. Left, right, `h` and `l` flip the highlight. `Enter`
    /// answers with the highlighted option and `Esc` with no. Every other key
    /// is swallowed.
    pub fn handle_key(&mut self, key: Key) -> (r: Option<bool>)
        ensures
            r == answer(old(self).selected, key),
            final(self).selected == highlight_after(old(self).selected, key),
            final(self).message == old(self).message,
            final(self).action == old(self).action,
    {
        match key {
            Key::Left | Key::Right | Key::Char('h') | Key::Char('l') => {
                self.selected = !self.selected;
                None
            },
            Key::Enter => Some(self.selected),
            Key::Esc => Some(false),
            _ => None,
        }
    }
}

} // verus!
