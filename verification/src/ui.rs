//! The overlay slots above the list, and the order in which they take keys.

use crate::confirm::Confirm;
use crate::input::InputBox;
use crate::popup::Popup;
use vstd::prelude::*;

verus! {

/// The overlays that may be open: at most one of each kind.
#[derive(Debug)]
pub struct UIState {
    pub popup: Option<Popup>,
    pub inputbox: Option<InputBox>,
    pub confirm: Option<Confirm>,
}

/// Who takes the next key.
#[derive(Clone, Copy, Debug, PartialEq, Eq, Structural)]
pub enum Route {
    /// The confirmation.
    Confirm,
    /// The popup.
    Popup,
    /// The text input.
    Input,
    /// The list below the overlays.
    Base,
}

impl Default for UIState {
    /// No overlay is open.
    fn default() -> (ui: UIState)
        ensures
            ui.popup is None,
            ui.inputbox is None,
            ui.confirm is None,
    {
        UIState { popup: None, inputbox: None, confirm: None }
    }
}

impl UIState {
    /// An open input has its cursor within its buffer.
    pub open spec fn wf(self) -> bool {
        self.inputbox is Some ==> self.inputbox->0.wf()
    }

    /// Who takes the next key: a confirmation before a popup, a popup before
    /// an input, an input before the list.
    pub open spec fn route(self) -> Route {
        if self.confirm is Some {
            Route::Confirm
        } else if self.popup is Some {
            Route::Popup
        } else if self.inputbox is Some {
            Route::Input
        } else {
            Route::Base
        }
    }

    /// Who takes the next key.
    pub fn active(&self) -> (r: Route)
        ensures
            r == self.route(),
    {
        if self.confirm.is_some() {
            Route::Confirm
        } else if self.popup.is_some() {
            Route::Popup
        } else if self.inputbox.is_some() {
            Route::Input
        } else {
            Route::Base
        }
    }

    /// Opens `popup` in place of any popup that was open.
    pub fn show_popup(&mut self, popup: Popup)
        ensures
            final(self).popup == Some(popup),
            final(self).inputbox == old(self).inputbox,
            final(self).confirm == old(self).confirm,
    {
        self.popup = Some(popup);
    }

    /// Closes the popup, if one is open.
    pub fn close_popup(&mut self)
        ensures
            final(self).popup is None,
            final(self).inputbox == old(self).inputbox,
            final(self).confirm == old(self).confirm,
    {
        self.popup = None;
    }

    /// Opens `input` in place of any input that was open.
    pub fn show_input(&mut self, input: InputBox)
        ensures
            final(self).inputbox == Some(input),
            final(self).popup == old(self).popup,
            final(self).confirm == old(self).confirm,
    {
        self.inputbox = Some(input);
    }

    /// Closes the input, if one is open.
    pub fn close_input(&mut self)
        ensures
            final(self).inputbox is None,
            final(self).popup == old(self).popup,
            final(self).confirm == old(self).confirm,
    {
        self.inputbox = None;
    }

    /// Opens `confirm` in place of any confirmation that was open.
    pub fn show_confirm(&mut self, confirm: Confirm)
        ensures
            final(self).confirm == Some(confirm),
            final(self).popup == old(self).popup,
            final(self).inputbox == old(self).inputbox,
    {
        self.confirm = Some(confirm);
    }

    /// Closes the confirmation, if one is open.
    pub fn close_confirm(&mut self)
        ensures
            final(self).confirm is None,
            final(self).popup == old(self).popup,
            final(self).inputbox == old(self).inputbox,
    {
        self.confirm = None;
    }
}

} // verus!
