//! The popup overlay: a framed message with a kind, titles and a rule for
//! the key that dismisses it; and the sizing of its box from its text.

use crate::key::Key;
use crate::layout::{center, centered, centered_span, Rect};
use crate::math::{min_nat, percentage, percentage_of};
use crate::style::{Color, Padding};
use crate::text::{
    calculate_max_line_len, lines_of, max_line_len, split_lines, views, wrap_text, wrapped,
};
use vstd::prelude::*;
use vstd::string::StringExecFns;

verus! {

/// Which key press dismisses a popup.
#[derive(Clone, Copy, Debug, PartialEq, Eq, Structural)]
pub enum PopupCloseBehavior {
    /// Any key press.
    AnyKey,
    /// That key only.
    Specific(Key),
    /// No key press: the popup is closed by other means.
    Never,
}

/// What a popup is about.
#[derive(Clone, Copy, Debug, PartialEq, Eq, Structural)]
pub enum PopupKind {
    Help,
    Info,
    Error,
    Success,
}

/// How a popup is drawn.
#[derive(Clone, Copy, Debug, PartialEq, Eq, Structural)]
pub struct PopupStyles {
    pub border_color: Color,
    pub padding: Padding,
    pub max_width: Option<u16>,
    pub show_title: bool,
}

/// A popup overlay.
#[derive(Debug, Clone)]
pub struct Popup {
    pub kind: PopupKind,
    pub message: String,
    pub title: Option<String>,
    pub close_behavior: PopupCloseBehavior,
    pub styles: PopupStyles,
}

/// The texts on a popup's border: the title on top, if shown, and the three
/// parts of the hint below.
#[derive(Debug, Clone)]
pub struct PopupLines {
    pub top: Option<String>,
    pub prefix: String,
    pub key: String,
    pub suffix: String,
}

/// The share of the frame's width, in hundredths, that a popup's text may
/// take.
pub const MAX_WIDTH_PERCENT: u16 = 70;

/// Columns that a popup's box takes besides its text and its padding.
pub const BORDER_MARGIN_WIDTH: usize = 6;

/// Rows that a popup's box takes besides its text, its titles and its
/// padding.
pub const BORDER_MARGIN_HEIGHT: usize = 2;

/// The border colour that goes with a kind.
pub open spec fn kind_color(kind: PopupKind) -> Color {
    match kind {
        PopupKind::Error => Color::Rgb(245, 161, 145),
        PopupKind::Success => Color::Rgb(144, 185, 159),
        PopupKind::Help => Color::Rgb(226, 158, 202),
        PopupKind::Info => Color::Rgb(172, 161, 207),
    }
}

/// The border colour that goes with a kind.
pub fn color_based_on_popup_kind(kind: PopupKind) -> (c: Color)
    ensures
        c == kind_color(kind),
{
    match kind {
        PopupKind::Error => Color::Rgb(245, 161, 145),
        PopupKind::Success => Color::Rgb(144, 185, 159),
        PopupKind::Help => Color::Rgb(226, 158, 202),
        PopupKind::Info => Color::Rgb(172, 161, 207),
    }
}

/// The title that a kind has when the popup names none.
pub open spec fn kind_title(kind: PopupKind) -> Seq<char> {
    match kind {
        PopupKind::Help => " Help "@,
        PopupKind::Error => " Error "@,
        PopupKind::Success => " Success "@,
        PopupKind::Info => " Info "@,
    }
}

/// The title on a popup's top border: none where titles are switched off,
/// else the popup's own title between two spaces, else the title of its kind.
pub open spec fn top_title(popup: Popup) -> Option<Seq<char>> {
    if !popup.styles.show_title {
        None
    } else {
        match popup.title {
            Some(t) => Some(" "@ + t@ + " "@),
            None => Some(kind_title(popup.kind)),
        }
    }
}

/// The middle part of the hint on a popup's bottom border, where `key_name`
/// is how the closing key is written.
pub open spec fn key_hint(behavior: PopupCloseBehavior, key_name: Seq<char>) -> Seq<char> {
    match behavior {
        PopupCloseBehavior::AnyKey => "any key"@,
        PopupCloseBehavior::Specific(_) => "<"@ + key_name + ">"@,
        PopupCloseBehavior::Never => ""@,
    }
}

/// Number of title lines of a popup: the hint below, and the title on top
/// where it is shown.
pub open spec fn title_line_count(popup: Popup) -> nat {
    if popup.styles.show_title {
        2
    } else {
        1
    }
}

/// The width at which a popup's message is wrapped in a frame of
/// `frame_width` columns: the longest line of the message, at least one
/// column, at most the allowed share of the frame.
pub open spec fn base_width(message: Seq<char>, frame_width: u16) -> nat {
    min_nat(
        max_line_len(lines_of(message)),
        percentage(frame_width, MAX_WIDTH_PERCENT),
    )
}

/// The width asked for a popup's box: wrapped text, padding and margin, cut
/// to the frame.
pub open spec fn popup_width(popup: Popup, frame_width: u16) -> nat {
    min_nat(
        base_width(popup.message@, frame_width) + popup.styles.padding.horizontal()
            + BORDER_MARGIN_WIDTH as nat,
        frame_width as nat,
    )
}

/// The height asked for a popup's box: wrapped lines, title lines, padding
/// and margin, cut to the frame.
pub open spec fn popup_height(popup: Popup, frame_width: u16, frame_height: u16) -> nat {
    min_nat(
        wrapped(popup.message@, base_width(popup.message@, frame_width)).len() + title_line_count(
            popup,
        ) + popup.styles.padding.vertical() + BORDER_MARGIN_HEIGHT as nat,
        frame_height as nat,
    )
}

/// The box asked for a popup never leaves the frame, and its text never takes
/// more than the allowed share of the frame's width, rounded down. Where the
/// message's longest line, the padding and the margin together keep within
/// that share, so does the whole box.
pub proof fn popup_size_bounds(popup: Popup, frame_width: u16, frame_height: u16)
    ensures
        popup_width(popup, frame_width) <= frame_width,
        popup_height(popup, frame_width, frame_height) <= frame_height,
        base_width(popup.message@, frame_width) <= frame_width * 7 / 10,
        max_line_len(lines_of(popup.message@)) + popup.styles.padding.horizontal()
            + BORDER_MARGIN_WIDTH <= frame_width * 7 / 10 ==> popup_width(popup, frame_width)
            <= frame_width * 7 / 10,
{
}

/// The texts on the border of `popup`. `key_name` is how the key that closes
/// the popup is written; it is used where one specific key does.
pub fn lines_based_on_popup(popup: &Popup, key_name: &str) -> (lines: PopupLines)
    ensures
        match (lines.top, top_title(*popup)) {
            (Some(a), Some(b)) => a@ == b,
            (None, None) => true,
            _ => false,
        },
        lines.prefix@ == " Press "@,
        lines.key@ == key_hint(popup.close_behavior, key_name@),
        lines.suffix@ == " to close this popup. "@,
{
    let top: Option<String> = if popup.styles.show_title {
        match &popup.title {
            Some(user_title) => {
                let mut t: String = String::from_str(" ");
                t.append(user_title.as_str());
                t.append(" ");
                Some(t)
            },
            None => Some(
                String::from_str(
                    match popup.kind {
                        PopupKind::Help => " Help ",
                        PopupKind::Error => " Error ",
                        PopupKind::Success => " Success ",
                        PopupKind::Info => " Info ",
                    },
                ),
            ),
        }
    } else {
        None
    };
    let key: String = match popup.close_behavior {
        PopupCloseBehavior::AnyKey => String::from_str("any key"),
        PopupCloseBehavior::Specific(_) => {
            let mut k: String = String::from_str("<");
            k.append(key_name);
            k.append(">");
            k
        },
        PopupCloseBehavior::Never => String::from_str(""),
    };
    PopupLines {
        top,
        prefix: String::from_str(" Press "),
        key,
        suffix: String::from_str(" to close this popup. "),
    }
}

/// The box of `popup` in a frame `frame_area`: as wide and high as its text,
/// titles, padding and margin ask, never larger than the frame, and centered
/// in it. The result depends on the popup's present text, so it is computed
/// anew for every frame.
pub fn calculate_area(popup: &Popup, frame_area: Rect) -> (area: Rect)
    ensures
        area == centered(
            frame_area,
            popup_width(*popup, frame_area.width) as u16,
            popup_height(*popup, frame_area.width, frame_area.height) as u16,
        ),
        area.within(frame_area),
        area.width <= frame_area.width,
        area.height <= frame_area.height,
        area.width <= popup_width(*popup, frame_area.width),
        area.height <= popup_height(*popup, frame_area.width, frame_area.height),
        centered_span(
            frame_area.x,
            frame_area.width,
            popup_width(*popup, frame_area.width) as u16,
            area.x,
            area.width,
        ),
        centered_span(
            frame_area.y,
            frame_area.height,
            popup_height(*popup, frame_area.width, frame_area.height) as u16,
            area.y,
            area.height,
        ),
        frame_area.fits() ==> area.width == popup_width(*popup, frame_area.width) && area.height
            == popup_height(*popup, frame_area.width, frame_area.height),
{
    let max_allowed_width: usize = percentage_of(frame_area.width, MAX_WIDTH_PERCENT);
    let raw_lines: Vec<&str> = split_lines(popup.message.as_str());
    let content_max_line: usize = calculate_max_line_len(raw_lines.as_slice());
    let base_width: usize = if content_max_line < max_allowed_width {
        content_max_line
    } else {
        max_allowed_width
    };
    let content_height: usize = wrap_text(popup.message.as_str(), base_width).len();
    let frame_width: usize = frame_area.width as usize;
    let frame_height: usize = frame_area.height as usize;
    let padding: Padding = popup.styles.padding;

    let title_lines: usize = if popup.styles.show_title {
        2
    } else {
        1
    };
    let frame_rows: usize = title_lines + padding.top as usize + padding.bottom as usize
        + BORDER_MARGIN_HEIGHT;
    let height: usize = if content_height >= frame_height || content_height + frame_rows
        >= frame_height {
        frame_height
    } else {
        content_height + frame_rows
    };

    let asked_width: usize = base_width + padding.left as usize + padding.right as usize
        + BORDER_MARGIN_WIDTH;
    let width: usize = if asked_width < frame_width {
        asked_width
    } else {
        frame_width
    };
    center(frame_area, width as u16, height as u16)
}

/// The message of the help popup: one line per command.
pub open spec fn help_message() -> Seq<char> {
    " a -> append a todo\n r -> rename a todo\n d -> delete a todo\n Enter -> mark as completed\n k/Up -> go up\n j/Down -> go down\n q/Esc -> quit\n ? -> toggle help"@
}

impl Popup {
    /// An informational popup with the given message, no title of its own,
    /// closed by `Esc`.
    pub fn new(message: &str) -> (p: Popup)
        ensures
            p.kind == PopupKind::Info,
            p.message@ == message@,
            p.title is None,
            p.close_behavior == PopupCloseBehavior::Specific(Key::Esc),
            p.styles == (PopupStyles {
                border_color: kind_color(PopupKind::Info),
                padding: Padding { left: 2, right: 2, top: 1, bottom: 1 },
                max_width: None,
                show_title: true,
            }),
    {
        Popup {
            kind: PopupKind::Info,
            message: String::from_str(message),
            title: None,
            close_behavior: PopupCloseBehavior::Specific(Key::Esc),
            styles: PopupStyles {
                border_color: color_based_on_popup_kind(PopupKind::Info),
                padding: Padding::new(2, 2, 1, 1),
                max_width: None,
                show_title: true,
            },
        }
    }

    /// The same popup of another kind, with that kind's border colour.
    pub fn kind(self, kind: PopupKind) -> (p: Popup)
        ensures
            p == (Popup {
                kind,
                styles: PopupStyles { border_color: kind_color(kind), ..self.styles },
                ..self
            }),
    {
        let mut p = self;
        p.kind = kind;
        p.styles.border_color = color_based_on_popup_kind(kind);
        p
    }

    /// The same popup with a title of its own.
    pub fn title(self, title: &str) -> (p: Popup)
        ensures
            p.title is Some,
            p.title->0@ == title@,
            p.kind == self.kind,
            p.message == self.message,
            p.close_behavior == self.close_behavior,
            p.styles == self.styles,
    {
        let mut p = self;
        p.title = Some(String::from_str(title));
        p
    }

    /// The same popup without a title on top.
    pub fn no_title(self) -> (p: Popup)
        ensures
            p == (Popup { styles: PopupStyles { show_title: false, ..self.styles }, ..self }),
    {
        let mut p = self;
        p.styles.show_title = false;
        p
    }

    /// The same popup, closed by any key.
    pub fn close_on_any_key(self) -> (p: Popup)
        ensures
            p == (Popup { close_behavior: PopupCloseBehavior::AnyKey, ..self }),
    {
        let mut p = self;
        p.close_behavior = PopupCloseBehavior::AnyKey;
        p
    }

    /// The same popup, closed by `key` only.
    pub fn close_on(self, key: Key) -> (p: Popup)
        ensures
            p == (Popup { close_behavior: PopupCloseBehavior::Specific(key), ..self }),
    {
        let mut p = self;
        p.close_behavior = PopupCloseBehavior::Specific(key);
        p
    }

    /// The same popup with another border colour.
    pub fn with_border_color(self, color: Color) -> (p: Popup)
        ensures
            p == (Popup { styles: PopupStyles { border_color: color, ..self.styles }, ..self }),
    {
        let mut p = self;
        p.styles.border_color = color;
        p
    }

    /// The same popup with another padding.
    pub fn with_padding(self, padding: Padding) -> (p: Popup)
        ensures
            p == (Popup { styles: PopupStyles { padding, ..self.styles }, ..self }),
    {
        let mut p = self;
        p.styles.padding = padding;
        p
    }

    /// The same popup with a greatest width noted in its styles.
    pub fn with_max_width(self, width: u16) -> (p: Popup)
        ensures
            p == (Popup { styles: PopupStyles { max_width: Some(width), ..self.styles }, ..self }),
    {
        let mut p = self;
        p.styles.max_width = Some(width);
        p
    }

    /// Tells whether a press of `key` dismisses this popup.
    pub open spec fn closes_on(self, key: Key) -> bool {
        match self.close_behavior {
            PopupCloseBehavior::AnyKey => true,
            PopupCloseBehavior::Specific(k) => k == key,
            PopupCloseBehavior::Never => false,
        }
    }

    /// Tells whether a press of `key` dismisses this popup.
    pub fn is_closed_by(&self, key: Key) -> (r: bool)
        ensures
            r == self.closes_on(key),
    {
        match self.close_behavior {
            PopupCloseBehavior::AnyKey => true,
            PopupCloseBehavior::Specific(k) => k == key,
            PopupCloseBehavior::Never => false,
        }
    }

    /// The content width of this popup's box when it is drawn in `area`, and
    /// its message wrapped to that width.
    pub fn content_lines(&self, area: Rect) -> (lines: Vec<String>)
        ensures
            views(lines@) == wrapped(self.message@, content_width(area) as nat),
    {
        let width: usize = if area.width < 4 {
            0
        } else {
            (area.width - 4) as usize
        };
        wrap_text(self.message.as_str(), width)
    }
}

/// The columns left for a popup's text in a box `area`: the box's width less
/// four, or none.
pub open spec fn content_width(area: Rect) -> int {
    if area.width < 4 {
        0
    } else {
        area.width - 4
    }
}

/// The help popup: the list of commands under the title "Controls", closed
/// by `?`.
pub fn help_popup() -> (p: Popup)
    ensures
        p.kind == PopupKind::Help,
        p.message@ == help_message(),
        p.title is Some,
        p.title->0@ == "Controls"@,
        p.close_behavior == PopupCloseBehavior::Specific(Key::Char('?')),
        p.styles == (PopupStyles {
            border_color: kind_color(PopupKind::Help),
            padding: Padding { left: 2, right: 2, top: 1, bottom: 1 },
            max_width: None,
            show_title: true,
        }),
{
    Popup::new(
        " a -> append a todo\n r -> rename a todo\n d -> delete a todo\n Enter -> mark as completed\n k/Up -> go up\n j/Down -> go down\n q/Esc -> quit\n ? -> toggle help",
    ).kind(PopupKind::Help).title("Controls").close_on(Key::Char('?'))
}

} // verus!
