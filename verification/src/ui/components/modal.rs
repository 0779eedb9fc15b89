//! Modal dialogs: a plain modal, an error dialog and a yes/no confirmation dialog.
use vstd::prelude::*;

use crate::events::key::{KeyCode, KeyEvent};
use crate::error::{suggestion_for, user_message_of, AppError};
use crate::text::copy_str;

verus! {

/// A modal dialog.
pub struct Modal {
    /// The dialog title.
    pub title: String,
    /// Whether the modal is visible.
    pub visible: bool,
}

impl Modal {
    /// Create a new, hidden modal.
    pub fn new(title: String) -> (m: Modal)
        ensures
            m.title == title,
            !m.visible,
    {
        Modal { title, visible: false }
    }
}

/// `v` kept between `lo` and `hi` (raised to `lo` first, then lowered to `hi`).
pub open spec fn clamp(v: int, lo: int, hi: int) -> int {
    let raised = if v < lo {
        lo
    } else {
        v
    };
    if raised > hi {
        hi
    } else {
        raised
    }
}

/// `percent` percent of `n` (rounded down) kept between `lo` and `hi`.
fn scaled(n: u16, percent: u16, lo: u16, hi: u16) -> (r: u16)
    requires
        n * percent <= u16::MAX,
        percent <= 100,
    ensures
        r == clamp(n * percent / 100, lo as int, hi as int),
{
    let v = n * percent / 100;
    let raised = if v < lo {
        lo
    } else {
        v
    };
    if raised > hi {
        hi
    } else {
        raised
    }
}

/// Formats an error with its derived `Debug` implementation (`format!("{:?}")`).
/// Nothing is claimed of the text.
#[verifier::external_body]
fn debug_text(e: &AppError) -> (s: String) {
    format!("{:?}", e)
}

/// A dialog that shows an error with an optional suggestion.
#[derive(Debug)]
pub struct ErrorDialog {
    /// The dialog title.
    pub title: String,
    /// The error message.
    pub message: String,
    /// Technical details of the error.
    pub details: Option<String>,
    /// What the user could do about it.
    pub suggestion: Option<String>,
    /// Whether the dialog is visible.
    pub visible: bool,
}

impl Default for ErrorDialog {
    fn default() -> (d: ErrorDialog)
        ensures
            d.title@.len() == 0,
            d.message@.len() == 0,
            d.details is None,
            d.suggestion is None,
            !d.visible,
    {
        ErrorDialog {
            title: String::new(),
            message: String::new(),
            details: None,
            suggestion: None,
            visible: false,
        }
    }
}

impl ErrorDialog {
    /// The size of the dialog on a screen of the given size: 60% of the width kept
    /// between 40 and 80 columns, 40% of the height kept between 8 and 20 rows.
    pub fn dialog_size(area_width: u16, area_height: u16) -> (r: (u16, u16))
        requires
            area_width * 60 <= u16::MAX,
            area_height * 40 <= u16::MAX,
        ensures
            r.0 == clamp(area_width * 60 / 100, 40, 80),
            r.1 == clamp(area_height * 40 / 100, 8, 20),
    {
        (scaled(area_width, 60, 40, 80), scaled(area_height, 40, 8, 20))
    }

    /// Create a new, hidden error dialog.
    pub fn new() -> (d: ErrorDialog)
        ensures
            d.title@.len() == 0,
            d.message@.len() == 0,
            d.details is None,
            d.suggestion is None,
            !d.visible,
    {
        ErrorDialog::default()
    }

    /// Show an application error: its user message, its debug form as details, and
    /// the advice for it, if any.
    pub fn show(&mut self, error: &AppError)
        ensures
            final(self).title@ == "Error"@,
            final(self).message@ == user_message_of(*error),
            final(self).details is Some,
            match final(self).suggestion {
                Some(s) => suggestion_for(*error) == Some(s@),
                None => suggestion_for(*error) is None,
            },
            final(self).visible,
    {
        self.title = copy_str("Error");
        self.message = error.user_message();
        self.details = Some(debug_text(error));
        self.suggestion = match error.suggested_action() {
            Some(s) => Some(copy_str(s)),
            None => None,
        };
        self.visible = true;
    }

    /// Show a title and message, without details or suggestion.
    pub fn show_message(&mut self, title: &str, message: &str)
        ensures
            final(self).title@ == title@,
            final(self).message@ == message@,
            final(self).details is None,
            final(self).suggestion is None,
            final(self).visible,
    {
        self.title = copy_str(title);
        self.message = copy_str(message);
        self.details = None;
        self.suggestion = None;
        self.visible = true;
    }

    /// Show a title, message and suggestion, without details.
    pub fn show_with_suggestion(&mut self, title: &str, message: &str, suggestion: &str)
        ensures
            final(self).title@ == title@,
            final(self).message@ == message@,
            final(self).details is None,
            final(self).suggestion matches Some(s) && s@ == suggestion@,
            final(self).visible,
    {
        self.title = copy_str(title);
        self.message = copy_str(message);
        self.details = None;
        self.suggestion = Some(copy_str(suggestion));
        self.visible = true;
    }

    /// Close (hide) the dialog.
    pub fn close(&mut self)
        ensures
            *final(self) == (ErrorDialog { visible: false, ..*old(self) }),
    {
        self.visible = false;
    }

    /// Dismiss the dialog (hides it).
    pub fn dismiss(&mut self)
        ensures
            *final(self) == (ErrorDialog { visible: false, ..*old(self) }),
    {
        self.visible = false;
    }

    /// Whether the dialog is visible.
    pub fn is_visible(&self) -> (b: bool)
        ensures
            b == self.visible,
    {
        self.visible
    }

    /// The error message.
    pub fn message(&self) -> (s: &str)
        ensures
            s@ == self.message@,
    {
        self.message.as_str()
    }
}

/// A confirmation dialog with Confirm and Cancel buttons.
#[derive(Debug)]
pub struct ConfirmDialog {
    /// The dialog title.
    pub title: String,
    /// The question asked.
    pub message: String,
    /// Whether the dialog is visible.
    pub visible: bool,
    /// Whether Confirm (rather than Cancel) is selected.
    pub selected_confirm: bool,
}

impl Default for ConfirmDialog {
    fn default() -> (d: ConfirmDialog)
        ensures
            d.title@.len() == 0,
            d.message@.len() == 0,
            !d.visible,
            !d.selected_confirm,
    {
        ConfirmDialog { title: String::new(), message: String::new(), visible: false, selected_confirm: false }
    }
}

/// The dialog after a key press, with the answer the key gave, if any.
pub open spec fn confirm_step(d: ConfirmDialog, key: KeyEvent) -> (ConfirmDialog, Option<bool>) {
    let c = key.code;
    if c == KeyCode::Enter {
        (ConfirmDialog { visible: false, ..d }, Some(d.selected_confirm))
    } else if c == KeyCode::Esc {
        (ConfirmDialog { visible: false, ..d }, Some(false))
    } else if c == KeyCode::Tab || c == KeyCode::Left || c == KeyCode::Right {
        (ConfirmDialog { selected_confirm: !d.selected_confirm, ..d }, None)
    } else if c == KeyCode::Char('y') || c == KeyCode::Char('Y') {
        (ConfirmDialog { visible: false, ..d }, Some(true))
    } else if c == KeyCode::Char('n') || c == KeyCode::Char('N') {
        (ConfirmDialog { visible: false, ..d }, Some(false))
    } else {
        (d, None)
    }
}

impl ConfirmDialog {
    /// The size of the dialog on a screen `area_width` columns wide: half the width
    /// kept between 40 and 60 columns, 8 rows high.
    pub fn dialog_size(area_width: u16) -> (r: (u16, u16))
        requires
            area_width * 50 <= u16::MAX,
        ensures
            r.0 == clamp(area_width * 50 / 100, 40, 60),
            r.1 == 8,
    {
        (scaled(area_width, 50, 40, 60), 8)
    }

    /// Create a new, hidden confirmation dialog.
    pub fn new() -> (d: ConfirmDialog)
        ensures
            d.title@.len() == 0,
            d.message@.len() == 0,
            !d.visible,
            !d.selected_confirm,
    {
        ConfirmDialog::default()
    }

    /// Show the dialog; Cancel is selected, for safety.
    pub fn show(&mut self, title: &str, message: &str)
        ensures
            final(self).title@ == title@,
            final(self).message@ == message@,
            final(self).visible,
            !final(self).selected_confirm,
    {
        self.title = copy_str(title);
        self.message = copy_str(message);
        self.visible = true;
        self.selected_confirm = false;
    }

    /// Close (hide) the dialog.
    pub fn close(&mut self)
        ensures
            *final(self) == (ConfirmDialog { visible: false, ..*old(self) }),
    {
        self.visible = false;
    }

    /// Whether the dialog is visible.
    pub fn is_visible(&self) -> (b: bool)
        ensures
            b == self.visible,
    {
        self.visible
    }

    /// Switch the selection between Confirm and Cancel.
    pub fn toggle_selection(&mut self)
        ensures
            *final(self) == (ConfirmDialog { selected_confirm: !old(self).selected_confirm, ..*old(self) }),
    {
        self.selected_confirm = !self.selected_confirm;
    }

    /// Select Confirm.
    pub fn select_confirm(&mut self)
        ensures
            *final(self) == (ConfirmDialog { selected_confirm: true, ..*old(self) }),
    {
        self.selected_confirm = true;
    }

    /// Select Cancel.
    pub fn select_cancel(&mut self)
        ensures
            *final(self) == (ConfirmDialog { selected_confirm: false, ..*old(self) }),
    {
        self.selected_confirm = false;
    }

    /// Whether Confirm is selected.
    pub fn is_confirm_selected(&self) -> (b: bool)
        ensures
            b == self.selected_confirm,
    {
        self.selected_confirm
    }

    /// Confirm: hides the dialog and answers yes.
    pub fn confirm(&mut self) -> (b: bool)
        ensures
            b,
            *final(self) == (ConfirmDialog { visible: false, ..*old(self) }),
    {
        self.visible = false;
        true
    }

    /// Cancel: hides the dialog and answers no.
    pub fn cancel(&mut self) -> (b: bool)
        ensures
            !b,
            *final(self) == (ConfirmDialog { visible: false, ..*old(self) }),
    {
        self.visible = false;
        false
    }

    /// Handle a key press: Enter answers with the selection, Esc or n answers no, y
    /// answers yes (each hides the dialog); Tab and the arrows switch the selection.
    pub fn handle_input(&mut self, key: KeyEvent) -> (r: Option<bool>)
        ensures
            (*final(self), r) == confirm_step(*old(self), key),
    {
        match key.code {
            KeyCode::Enter => {
                self.visible = false;
                Some(self.selected_confirm)
            },
            KeyCode::Esc => {
                self.visible = false;
                Some(false)
            },
            KeyCode::Tab | KeyCode::Left | KeyCode::Right => {
                self.toggle_selection();
                None
            },
            KeyCode::Char('y') | KeyCode::Char('Y') => {
                self.visible = false;
                Some(true)
            },
            KeyCode::Char('n') | KeyCode::Char('N') => {
                self.visible = false;
                Some(false)
            },
            _ => None,
        }
    }
}

/// Switching the selection twice leaves a confirmation dialog as it was.
pub proof fn law_toggle_twice(d: ConfirmDialog)
    ensures
        (ConfirmDialog {
            selected_confirm: !(ConfirmDialog { selected_confirm: !d.selected_confirm, ..d }).selected_confirm,
            ..(ConfirmDialog { selected_confirm: !d.selected_confirm, ..d })
        }) == d,
{
}

} // verus!
