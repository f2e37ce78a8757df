//! The vocabulary between the shell's decisions and the windowing layer:
//! the events that come in, the single steps that go out, and the one way a
//! step can fail.

use vstd::prelude::*;
use crate::window::{WindowConfig, WindowSpec};

verus! {

/// Where a window is put relative to the tray icon.
#[derive(Clone, Copy, Debug, PartialEq, Eq)]
pub enum Anchor {
    TrayLeft,
    TrayBottomLeft,
    TrayRight,
    TrayBottomRight,
    TrayCenter,
    TrayBottomCenter,
}

/// What happened to the tray icon.
#[derive(Clone, Copy, Debug, PartialEq, Eq)]
pub enum TrayEvent {
    Click,
    DoubleClick,
    Enter,
    Move,
    Leave,
    /// Anything the tray icon may come to report beyond these.
    Other,
}

/// What happened to a window, as far as the shell cares.
#[derive(Clone, Copy, Debug, PartialEq, Eq)]
pub enum WindowEvent {
    /// The window gained (`true`) or lost (`false`) input focus.
    Focused(bool),
    /// Anything else: moved, resized, asked to close, and so on.
    Other,
}

/// The failure of a window operation: a label that is taken, a window that
/// is not there, or a windowing layer that refuses.
#[derive(Clone, Copy, Debug, PartialEq, Eq)]
pub enum WindowError {
    OperationFailed,
}

/// One request to the windowing layer.
#[derive(Clone, Debug, PartialEq, Eq)]
pub enum Action {
    /// Open a window as configured.
    Create(WindowConfig),
    /// Give input focus to the window with this label.
    Focus(String),
    /// Close the window with this label.
    Close(String),
    /// Move the window with this label to a place beside the tray icon.
    MoveTo(String, Anchor),
    /// From now on, close the window with this label when it loses focus.
    CloseOnBlur(String),
}

/// Mathematical value of an [`Action`].
pub enum ActionSpec {
    Create(WindowSpec),
    Focus(Seq<char>),
    Close(Seq<char>),
    MoveTo(Seq<char>, Anchor),
    CloseOnBlur(Seq<char>),
}

impl View for Action {
    type V = ActionSpec;

    open spec fn view(&self) -> ActionSpec {
        match self {
            Action::Create(config) => ActionSpec::Create(config@),
            Action::Focus(label) => ActionSpec::Focus(label@),
            Action::Close(label) => ActionSpec::Close(label@),
            Action::MoveTo(label, anchor) => ActionSpec::MoveTo(label@, *anchor),
            Action::CloseOnBlur(label) => ActionSpec::CloseOnBlur(label@),
        }
    }
}

impl DeepView for Action {
    type V = ActionSpec;

    open spec fn deep_view(&self) -> ActionSpec {
        self@
    }
}

impl ActionSpec {
    /// Label of the window that the request is about.
    pub open spec fn label(self) -> Seq<char> {
        match self {
            ActionSpec::Create(config) => config.label,
            ActionSpec::Focus(label) => label,
            ActionSpec::Close(label) => label,
            ActionSpec::MoveTo(label, _) => label,
            ActionSpec::CloseOnBlur(label) => label,
        }
    }
}

} // verus!
