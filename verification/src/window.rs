//! What a window is asked to look like when it is opened.
//!
//! Every attribute is optional: `None` leaves the choice to the windowing
//! layer. Lengths are whole logical pixels.

use vstd::prelude::*;

verus! {

/// Page shown by the ordinary windows.
pub const INDEX_PAGE: &'static str = "index.html";

/// Page with a transparent body, shown by the effects window.
pub const EFFECTS_PAGE: &'static str = "effects.html";

/// Page shown by the window beside the tray icon.
pub const POSITION_PAGE: &'static str = "position.html";

/// Colour scheme of a window.
#[derive(Clone, Copy, Debug, PartialEq, Eq)]
pub enum Theme {
    Light,
    Dark,
}

/// A backdrop effect drawn behind a transparent window.
#[derive(Clone, Copy, Debug, PartialEq, Eq)]
pub enum WindowEffect {
    /// Heads-up-display material (macOS).
    HudWindow,
    /// Acrylic blur (Windows).
    Acrylic,
}

/// Whether an effect follows the window's focus.
#[derive(Clone, Copy, Debug, PartialEq, Eq)]
pub enum EffectState {
    FollowsWindowActiveState,
    Active,
    Inactive,
}

/// A colour with alpha, each channel from 0 to 255.
#[derive(Clone, Copy, Debug, PartialEq, Eq)]
pub struct Color {
    pub red: u8,
    pub green: u8,
    pub blue: u8,
    pub alpha: u8,
}

/// Width and height of a window's content area.
#[derive(Clone, Copy, Debug, PartialEq, Eq)]
pub struct Size {
    pub width: u32,
    pub height: u32,
}

/// A place on the screen, measured from its top left corner.
#[derive(Clone, Copy, Debug, PartialEq, Eq)]
pub struct Point {
    pub x: i32,
    pub y: i32,
}

/// The backdrop of a window: which effects to try, in order, and how.
#[derive(Clone, Debug, PartialEq, Eq)]
pub struct Effects {
    pub effects: Vec<WindowEffect>,
    pub state: Option<EffectState>,
    pub radius: Option<u32>,
    pub color: Option<Color>,
}

/// Mathematical value of an [`Effects`].
pub struct EffectsSpec {
    pub effects: Seq<WindowEffect>,
    pub state: Option<EffectState>,
    pub radius: Option<u32>,
    pub color: Option<Color>,
}

impl View for Effects {
    type V = EffectsSpec;

    open spec fn view(&self) -> EffectsSpec {
        EffectsSpec {
            effects: self.effects@,
            state: self.state,
            radius: self.radius,
            color: self.color,
        }
    }
}

/// Everything that is said about a window when it is opened.
#[derive(Clone, Debug, PartialEq, Eq)]
pub struct WindowConfig {
    pub label: String,
    pub page: String,
    pub title: Option<String>,
    pub resizable: Option<bool>,
    pub closable: Option<bool>,
    pub decorations: Option<bool>,
    pub transparent: Option<bool>,
    pub always_on_top: Option<bool>,
    pub skip_taskbar: Option<bool>,
    pub theme: Option<Theme>,
    pub inner_size: Option<Size>,
    pub position: Option<Point>,
    pub effects: Option<Effects>,
}

/// Mathematical value of a [`WindowConfig`].
pub struct WindowSpec {
    pub label: Seq<char>,
    pub page: Seq<char>,
    pub title: Option<Seq<char>>,
    pub resizable: Option<bool>,
    pub closable: Option<bool>,
    pub decorations: Option<bool>,
    pub transparent: Option<bool>,
    pub always_on_top: Option<bool>,
    pub skip_taskbar: Option<bool>,
    pub theme: Option<Theme>,
    pub inner_size: Option<Size>,
    pub position: Option<Point>,
    pub effects: Option<EffectsSpec>,
}

impl View for WindowConfig {
    type V = WindowSpec;

    open spec fn view(&self) -> WindowSpec {
        WindowSpec {
            label: self.label@,
            page: self.page@,
            title: match self.title {
                Some(title) => Some(title@),
                None => None,
            },
            resizable: self.resizable,
            closable: self.closable,
            decorations: self.decorations,
            transparent: self.transparent,
            always_on_top: self.always_on_top,
            skip_taskbar: self.skip_taskbar,
            theme: self.theme,
            inner_size: self.inner_size,
            position: self.position,
            effects: match self.effects {
                Some(effects) => Some(effects@),
                None => None,
            },
        }
    }
}

/// A window with a label and a page, and every other choice left open.
pub open spec fn plain_window(label: Seq<char>, page: Seq<char>) -> WindowSpec {
    WindowSpec {
        label,
        page,
        title: None,
        resizable: None,
        closable: None,
        decorations: None,
        transparent: None,
        always_on_top: None,
        skip_taskbar: None,
        theme: None,
        inner_size: None,
        position: None,
        effects: None,
    }
}

impl WindowConfig {
    /// A window with a label and a page, and every other choice left open.
    pub fn new(label: String, page: String) -> (config: WindowConfig)
        ensures
            config@ == plain_window(label@, page@),
    {
        WindowConfig {
            label,
            page,
            title: None,
            resizable: None,
            closable: None,
            decorations: None,
            transparent: None,
            always_on_top: None,
            skip_taskbar: None,
            theme: None,
            inner_size: None,
            position: None,
            effects: None,
        }
    }
}

} // verus!
