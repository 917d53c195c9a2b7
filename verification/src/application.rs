//! The application's state and its key router: one key event goes to the
//! confirmation, the popup, the input or the list, in that order of
//! precedence, after the termination chord.

use crate::confirm::{answer, highlight_after, Confirm, ConfirmAction};
use crate::input::{
    buffer_after, cursor_after, submits, InputBox, InputBoxStyles, InputMode, InputResult,
    DEFAULT_MAX_CHARS,
};
use crate::key::Key;
use crate::popup::{
    help_message, help_popup, kind_color, PopupCloseBehavior, PopupKind, PopupStyles,
};
use crate::renderer::Renderer;
use crate::state::{ApplicationState, SelectState};
use crate::style::{Color, Padding};
use crate::ui::{Route, UIState};
use vstd::prelude::*;

verus! {

/// The whole application: the list, the overlays, and whether it still runs.
pub struct Application {
    pub state: ApplicationState,
    pub running: bool,
    pub ui: UIState,
    pub renderer: Renderer,
}

/// The chord that ends the application from any state.
pub open spec fn is_termination_chord(key: Key, control: bool) -> bool {
    key == Key::Char('c') && control
}

/// The question that a submitted input raises.
pub open spec fn submit_question(mode: InputMode) -> Seq<char> {
    match mode {
        InputMode::Insert => "Append this todo?"@,
        InputMode::Edit => "Rename this todo?"@,
    }
}

/// `action` is what a submitted input of `mode` asks to confirm for `text`.
pub open spec fn is_submit_action(
    action: Option<ConfirmAction>,
    mode: InputMode,
    text: Seq<char>,
) -> bool {
    match (action, mode) {
        (Some(ConfirmAction::Append(t)), InputMode::Insert) => t@ == text,
        (Some(ConfirmAction::Rename(t)), InputMode::Edit) => t@ == text,
        _ => false,
    }
}

/// `post` is `pre` after `action` is carried out.
pub open spec fn acted(
    pre: ApplicationState,
    action: Option<ConfirmAction>,
    post: ApplicationState,
) -> bool {
    match action {
        Some(ConfirmAction::Append(text)) => pre.appended(text@, post),
        Some(ConfirmAction::Remove) => pre.removed(post),
        Some(ConfirmAction::Rename(text)) => pre.renamed(text@, post),
        None => post == pre,
    }
}

/// Precedence: while a confirmation is open, a key other than the
/// termination chord goes to the confirmation alone. A popup and an input
/// that are open below it stay as they were, and the application keeps
/// running.
pub proof fn confirm_takes_precedence(pre: Application, key: Key, control: bool, post: Application)
    requires
        pre.ui.confirm is Some,
        !is_termination_chord(key, control),
        pre.step(key, control, post),
    ensures
        pre.confirm_step(key, post),
        post.ui.popup == pre.ui.popup,
        post.ui.inputbox == pre.ui.inputbox,
        post.running == pre.running,
{
}

/// Precedence: while a popup is open and no confirmation, a key other than
/// the termination chord goes to the popup alone. The input below it and the
/// list stay as they were.
pub proof fn popup_precedes_input(pre: Application, key: Key, control: bool, post: Application)
    requires
        pre.ui.confirm is None,
        pre.ui.popup is Some,
        !is_termination_chord(key, control),
        pre.step(key, control, post),
    ensures
        pre.popup_step(key, post),
        post.ui.inputbox == pre.ui.inputbox,
        post.state == pre.state,
        post.running == pre.running,
{
}

/// While an input is open, no key but the termination chord reaches the
/// list: the tasks, the selection and the running flag stay as they were.
pub proof fn input_precedes_list(pre: Application, key: Key, control: bool, post: Application)
    requires
        pre.ui.inputbox is Some,
        !is_termination_chord(key, control),
        pre.step(key, control, post),
    ensures
        post.running == pre.running,
        post.state == pre.state || (pre.ui.confirm is Some && answer(
            pre.ui.confirm->0.selected,
            key,
        ) == Some(true)),
{
}

impl Application {
    /// An open input has its cursor within its buffer.
    pub open spec fn wf(self) -> bool {
        self.ui.wf()
    }

    /// `post` is `self` after the confirmation took `key`. A toggle key
    /// flips the highlight. `Enter` and `Esc` close the confirmation; a yes
    /// carries out the pending action, once. Popup and input are untouched.
    pub open spec fn confirm_step(self, key: Key, post: Application) -> bool {
        let confirm = self.ui.confirm->0;
        &&& post.running == self.running
        &&& post.ui.popup == self.ui.popup
        &&& post.ui.inputbox == self.ui.inputbox
        &&& match answer(confirm.selected, key) {
            Some(yes) => {
                &&& post.ui.confirm is None
                &&& if yes {
                    acted(self.state, confirm.action, post.state)
                } else {
                    post.state == self.state
                }
            },
            None => {
                &&& post.state == self.state
                &&& post.ui.confirm is Some
                &&& post.ui.confirm->0.selected == highlight_after(confirm.selected, key)
                &&& post.ui.confirm->0.message == confirm.message
                &&& post.ui.confirm->0.action == confirm.action
            },
        }
    }

    /// `post` is `self` after the popup took `key`: the popup is closed if
    /// the key is one that closes it; nothing else changes.
    pub open spec fn popup_step(self, key: Key, post: Application) -> bool {
        &&& post.running == self.running
        &&& post.state == self.state
        &&& post.ui.confirm == self.ui.confirm
        &&& post.ui.inputbox == self.ui.inputbox
        &&& post.ui.popup == if self.ui.popup->0.closes_on(key) {
            None
        } else {
            self.ui.popup
        }
    }

    /// `post` is `self` after the input took `key`. `Esc` closes the input.
    /// `Enter` on a buffer that is not empty closes it and opens a
    /// confirmation that carries the text. Every other key edits the input.
    pub open spec fn input_step(self, key: Key, post: Application) -> bool {
        let input = self.ui.inputbox->0;
        &&& post.running == self.running
        &&& post.state == self.state
        &&& post.ui.popup == self.ui.popup
        &&& if key == Key::Esc {
            &&& post.ui.inputbox is None
            &&& post.ui.confirm == self.ui.confirm
        } else if submits(input.buffer@, key) {
            &&& post.ui.inputbox is None
            &&& post.ui.confirm is Some
            &&& post.ui.confirm->0.message@ == submit_question(input.mode)
            &&& !post.ui.confirm->0.selected
            &&& is_submit_action(post.ui.confirm->0.action, input.mode, input.buffer@)
        } else {
            &&& post.ui.confirm == self.ui.confirm
            &&& post.ui.inputbox is Some
            &&& post.ui.inputbox->0.buffer@ == buffer_after(
                input.buffer@,
                input.cursor as int,
                input.styles.max_chars as nat,
                key,
            )
            &&& post.ui.inputbox->0.cursor == cursor_after(
                input.buffer@,
                input.cursor as int,
                input.styles.max_chars as nat,
                key,
            )
            &&& post.ui.inputbox->0.title == input.title
            &&& post.ui.inputbox->0.mode == input.mode
            &&& post.ui.inputbox->0.styles == input.styles
        }
    }

    /// `input` is a fresh input of `mode` that holds `text`, the cursor
    /// behind it.
    pub open spec fn is_fresh_input(
        input: Option<InputBox>,
        mode: InputMode,
        text: Seq<char>,
    ) -> bool {
        &&& input is Some
        &&& input->0.buffer@ == text
        &&& input->0.cursor == text.len()
        &&& input->0.title is None
        &&& input->0.mode == mode
        &&& input->0.styles == (InputBoxStyles {
            fg_color: match mode {
                InputMode::Insert => Color::Rgb(245, 161, 145),
                InputMode::Edit => Color::Rgb(234, 141, 165),
            },
            padding: Padding { left: 1, right: 1, top: 0, bottom: 0 },
            max_chars: DEFAULT_MAX_CHARS,
            show_title: true,
        })
    }

    /// `post` is `self` after the list took `key`, with no overlay open.
    /// `q` and `Esc` stop the application. `k`, `Up`, `j` and `Down` move the
    /// selection. `Enter` toggles the selected task. `a` opens an empty
    /// input, `r` one that holds the selected task's title, `d` the
    /// confirmation of a removal, `?` the help popup. A command that needs a
    /// selected task does nothing without one, and so does any other key.
    pub open spec fn base_step(self, key: Key, post: Application) -> bool {
        match key {
            Key::Char('q') | Key::Esc => {
                &&& !post.running
                &&& post.state == self.state
                &&& post.ui == self.ui
            },
            Key::Char('k') | Key::Up => {
                &&& post.running == self.running
                &&& post.ui == self.ui
                &&& post.state.todos == self.state.todos
                &&& post.state.select_state == self.state.select_state.after_select(
                    Some(self.state.select_state.previous()),
                )
            },
            Key::Char('j') | Key::Down => {
                &&& post.running == self.running
                &&& post.ui == self.ui
                &&& post.state.todos == self.state.todos
                &&& post.state.select_state == self.state.select_state.after_select(
                    Some(self.state.select_state.next()),
                )
            },
            Key::Char('a') => {
                &&& post.running == self.running
                &&& post.state == self.state
                &&& post.ui.popup == self.ui.popup
                &&& post.ui.confirm == self.ui.confirm
                &&& Self::is_fresh_input(post.ui.inputbox, InputMode::Insert, Seq::empty())
            },
            Key::Char('r') => {
                &&& post.running == self.running
                &&& post.state == self.state
                &&& post.ui.popup == self.ui.popup
                &&& post.ui.confirm == self.ui.confirm
                &&& match self.state.current() {
                    Some(i) => Self::is_fresh_input(
                        post.ui.inputbox,
                        InputMode::Edit,
                        self.state.todos@[i].title@,
                    ),
                    None => post.ui.inputbox == self.ui.inputbox,
                }
            },
            Key::Char('d') => {
                &&& post.running == self.running
                &&& post.state == self.state
                &&& post.ui.popup == self.ui.popup
                &&& post.ui.inputbox == self.ui.inputbox
                &&& post.ui.confirm is Some
                &&& post.ui.confirm->0.message@ == "Remove this todo?"@
                &&& !post.ui.confirm->0.selected
                &&& post.ui.confirm->0.action == Some(ConfirmAction::Remove)
            },
            Key::Enter => {
                &&& post.running == self.running
                &&& post.ui == self.ui
                &&& self.state.toggled(post.state)
            },
            Key::Char('?') => {
                &&& post.running == self.running
                &&& post.state == self.state
                &&& post.ui.inputbox == self.ui.inputbox
                &&& post.ui.confirm == self.ui.confirm
                &&& post.ui.popup is Some
                &&& post.ui.popup->0.kind == PopupKind::Help
                &&& post.ui.popup->0.message@ == help_message()
                &&& post.ui.popup->0.title is Some
                &&& post.ui.popup->0.title->0@ == "Controls"@
                &&& post.ui.popup->0.close_behavior == PopupCloseBehavior::Specific(Key::Char('?'))
                &&& post.ui.popup->0.styles == (PopupStyles {
                    border_color: kind_color(PopupKind::Help),
                    padding: Padding { left: 2, right: 2, top: 1, bottom: 1 },
                    max_width: None,
                    show_title: true,
                })
            },
            _ => {
                &&& post.running == self.running
                &&& post.state == self.state
                &&& post.ui == self.ui
            },
        }
    }

    /// `post` is `self` after the key event `key`, pressed with the control
    /// key held or not. The termination chord stops the application and
    /// touches nothing else, whatever is open. Any other key goes to exactly
    /// one handler: the confirmation's if one is open, else the popup's, else
    /// the input's, else the list's.
    pub open spec fn step(self, key: Key, control: bool, post: Application) -> bool {
        if is_termination_chord(key, control) {
            &&& !post.running
            &&& post.state == self.state
            &&& post.ui == self.ui
        } else {
            match self.ui.route() {
                Route::Confirm => self.confirm_step(key, post),
                Route::Popup => self.popup_step(key, post),
                Route::Input => self.input_step(key, post),
                Route::Base => self.base_step(key, post),
            }
        }
    }

    /// A running application with an empty list and no overlay.
    pub fn new() -> (app: Application)
        ensures
            app.wf(),
            app.running,
            app.state.todos@.len() == 0,
            app.state.select_state == (SelectState { offset: 0, selected: Some(0) }),
            app.ui.route() == Route::Base,
    {
        Application {
            state: ApplicationState::new(),
            running: true,
            ui: UIState::default(),
            renderer: Renderer,
        }
    }

    /// Hands `key` to the open confirmation.
    pub fn handle_confirm_key(&mut self, key: Key)
        requires
            old(self).ui.confirm is Some,
        ensures
            old(self).confirm_step(key, *final(self)),
            final(self).ui.wf() == old(self).ui.wf(),
    {
        let result: Option<bool> = match &mut self.ui.confirm {
            Some(confirm) => confirm.handle_key(key),
            None => None,
        };
        if let Some(yes) = result {
            let closed: Option<Confirm> = self.ui.confirm.take();
            if yes {
                if let Some(confirm) = closed {
                    match confirm.action {
                        Some(ConfirmAction::Append(text)) => {
                            self.state.append_todo(text.as_str());
                        },
                        Some(ConfirmAction::Remove) => {
                            self.state.remove_todo();
                        },
                        Some(ConfirmAction::Rename(text)) => {
                            self.state.rename_todo(text.as_str());
                        },
                        None => {},
                    }
                }
            }
        }
    }

    /// Hands `key` to the open popup.
    pub fn handle_popup_key(&mut self, key: Key)
        requires
            old(self).ui.popup is Some,
        ensures
            old(self).popup_step(key, *final(self)),
    {
        let closes: bool = match &self.ui.popup {
            Some(popup) => popup.is_closed_by(key),
            None => false,
        };
        if closes {
            self.ui.close_popup();
        }
    }

    /// Hands `key` to the open input.
    pub fn handle_input_key(&mut self, key: Key)
        requires
            old(self).ui.inputbox is Some,
            old(self).ui.wf(),
        ensures
            old(self).input_step(key, *final(self)),
            final(self).ui.wf(),
    {
        let mode: InputMode = match &self.ui.inputbox {
            Some(input) => input.mode,
            None => InputMode::Insert,
        };
        let result: InputResult = match &mut self.ui.inputbox {
            Some(input) => input.handle_key(key),
            None => InputResult::Continue,
        };
        match result {
            InputResult::Continue => {},
            InputResult::Cancel => {
                self.ui.close_input();
            },
            InputResult::Submit(text) => {
                match mode {
                    InputMode::Insert => {
                        self.ui.show_confirm(
                            Confirm::new().with_message("Append this todo?").action(
                                ConfirmAction::Append(text),
                            ),
                        );
                    },
                    InputMode::Edit => {
                        self.ui.show_confirm(
                            Confirm::new().with_message("Rename this todo?").action(
                                ConfirmAction::Rename(text),
                            ),
                        );
                    },
                }
                self.ui.close_input();
            },
        }
    }

    /// Hands `key` to the list.
    pub fn handle_base_key(&mut self, key: Key)
        requires
            old(self).ui.wf(),
        ensures
            old(self).base_step(key, *final(self)),
            final(self).ui.wf(),
    {
        match key {
            Key::Char('q') | Key::Esc => {
                self.running = false;
            },
            Key::Char('k') | Key::Up => {
                self.state.select_state.select_previous();
            },
            Key::Char('j') | Key::Down => {
                self.state.select_state.select_next();
            },
            Key::Char('a') => {
                self.ui.show_input(InputBox::insert());
            },
            Key::Char('r') => {
                if let Some(todo) = self.state.get_current_todo() {
                    self.ui.show_input(InputBox::edit(todo.title.as_str()));
                }
            },
            Key::Char('d') => {
                self.ui.show_confirm(
                    Confirm::new().with_message("Remove this todo?").action(ConfirmAction::Remove),
                );
            },
            Key::Enter => {
                self.state.toggle_current();
            },
            Key::Char('?') => {
                self.ui.show_popup(help_popup());
            },
            _ => {},
        }
    }

    /// Routes one key event. See `step`.
    pub fn handle_key(&mut self, key: Key, control: bool)
        requires
            old(self).wf(),
        ensures
            old(self).step(key, control, *final(self)),
            final(self).wf(),
    {
        if key == Key::Char('c') && control {
            self.running = false;
            return ;
        }
        match self.ui.active() {
            Route::Confirm => self.handle_confirm_key(key),
            Route::Popup => self.handle_popup_key(key),
            Route::Input => self.handle_input_key(key),
            Route::Base => self.handle_base_key(key),
        }
    }
}

} // verus!
