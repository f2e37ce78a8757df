//! The shell's commands and event handlers.
//!
//! Each one looks at the open windows, if at all, and answers with a plan:
//! the requests to put to the windowing layer, in order. The caller carries
//! them out one by one, stops at the first that fails and hands that failure
//! on unchanged.

use vstd::prelude::*;
use vstd::string::StringExecFns;
use crate::action::{Action, ActionSpec, Anchor, TrayEvent, WindowEvent};
use crate::label::{
    numbered_label,
    window_label,
    EFFECTS_LABEL,
    FLOATING_LABEL,
    FOCUS_LABEL,
    POSITION_LABEL,
};
use crate::registry::Registry;
use crate::window::{
    plain_window,
    Effects,
    EffectsSpec,
    Point,
    Size,
    Theme,
    WindowConfig,
    WindowEffect,
    WindowSpec,
    EFFECTS_PAGE,
    INDEX_PAGE,
    POSITION_PAGE,
};

verus! {

/// Title of the effects window.
pub const EFFECTS_TITLE: &'static str = "transparent effects";

/// The window that `new_window` opens while `count` windows are open.
pub open spec fn numbered_window(count: nat) -> WindowSpec {
    plain_window(numbered_label(count), INDEX_PAGE@)
}

/// The window that `new_window_or_focus` opens.
pub open spec fn focus_window() -> WindowSpec {
    plain_window(FOCUS_LABEL@, INDEX_PAGE@)
}

/// The effects window: 400 by 800, neither resizable nor closable, dark,
/// transparent over a blurred backdrop with rounded corners.
pub open spec fn effects_window() -> WindowSpec {
    WindowSpec {
        title: Some(EFFECTS_TITLE@),
        resizable: Some(false),
        closable: Some(false),
        transparent: Some(true),
        theme: Some(Theme::Dark),
        inner_size: Some(Size { width: 400, height: 800 }),
        effects: Some(
            EffectsSpec {
                effects: seq![WindowEffect::HudWindow, WindowEffect::Acrylic],
                state: None,
                radius: Some(24),
                color: None,
            },
        ),
        ..plain_window(EFFECTS_LABEL@, EFFECTS_PAGE@)
    }
}

/// The floating window: 400 by 400 in the top left corner of the screen,
/// without decorations and above every other window.
pub open spec fn floating_window() -> WindowSpec {
    WindowSpec {
        decorations: Some(false),
        always_on_top: Some(true),
        inner_size: Some(Size { width: 400, height: 400 }),
        position: Some(Point { x: 0, y: 0 }),
        ..plain_window(FLOATING_LABEL@, INDEX_PAGE@)
    }
}

/// The window beside the tray icon: without decorations, above every other
/// window and absent from the taskbar.
pub open spec fn position_window() -> WindowSpec {
    WindowSpec {
        decorations: Some(false),
        always_on_top: Some(true),
        skip_taskbar: Some(true),
        ..plain_window(POSITION_LABEL@, POSITION_PAGE@)
    }
}

/// What `new_window` asks for: a window labelled by the count of open windows.
pub open spec fn new_window_plan(windows: Seq<Seq<char>>) -> Seq<ActionSpec> {
    seq![ActionSpec::Create(numbered_window(windows.len()))]
}

/// What `new_window_or_focus` asks for: focus for the focus window if it is
/// open, the window itself if it is not.
pub open spec fn new_window_or_focus_plan(windows: Seq<Seq<char>>) -> Seq<ActionSpec> {
    if windows.contains(FOCUS_LABEL@) {
        seq![ActionSpec::Focus(FOCUS_LABEL@)]
    } else {
        seq![ActionSpec::Create(focus_window())]
    }
}

/// What `effects` asks for: the effects window, whatever is open.
pub open spec fn effects_plan() -> Seq<ActionSpec> {
    seq![ActionSpec::Create(effects_window())]
}

/// What `floating` asks for: the end of the floating window if it is open,
/// the window itself if it is not.
pub open spec fn floating_plan(windows: Seq<Seq<char>>) -> Seq<ActionSpec> {
    if windows.contains(FLOATING_LABEL@) {
        seq![ActionSpec::Close(FLOATING_LABEL@)]
    } else {
        seq![ActionSpec::Create(floating_window())]
    }
}

/// What `position` asks for: the tray window, then its place centred on the
/// tray icon, then its closing as soon as it loses focus.
pub open spec fn position_plan() -> Seq<ActionSpec> {
    seq![
        ActionSpec::Create(position_window()),
        ActionSpec::MoveTo(POSITION_LABEL@, Anchor::TrayCenter),
        ActionSpec::CloseOnBlur(POSITION_LABEL@),
    ]
}

/// What a tray event sets off: a click asks for the tray window, every other
/// event for nothing.
pub open spec fn tray_plan(event: TrayEvent) -> Seq<ActionSpec> {
    if event == TrayEvent::Click {
        position_plan()
    } else {
        Seq::empty()
    }
}

/// What an event sets off on a window that closes when it loses focus: the
/// loss of focus asks for its end, every other event for nothing.
pub open spec fn blur_plan(label: Seq<char>, event: WindowEvent) -> Seq<ActionSpec> {
    if event == WindowEvent::Focused(false) {
        seq![ActionSpec::Close(label)]
    } else {
        Seq::empty()
    }
}

/// Opens one more ordinary window. Its label is written from the number of
/// windows that are open now, so it is taken again, and the request refused,
/// when an earlier window was closed and a later one is still open.
pub fn new_window(open: &Registry) -> (plan: Vec<Action>)
    ensures
        plan.deep_view() == new_window_plan(open@),
{
    let config = WindowConfig::new(window_label(open.len()), String::from_str(INDEX_PAGE));
    let plan = vec![Action::Create(config)];
    assert(plan.deep_view() =~= new_window_plan(open@));
    plan
}

/// Opens the focus window, or brings it to the front if it is open already.
pub fn new_window_or_focus(open: &Registry) -> (plan: Vec<Action>)
    ensures
        plan.deep_view() == new_window_or_focus_plan(open@),
{
    let plan = if open.contains(FOCUS_LABEL) {
        vec![Action::Focus(String::from_str(FOCUS_LABEL))]
    } else {
        let config = WindowConfig::new(String::from_str(FOCUS_LABEL), String::from_str(INDEX_PAGE));
        vec![Action::Create(config)]
    };
    assert(plan.deep_view() =~= new_window_or_focus_plan(open@));
    plan
}

/// Opens the effects window. Its dark theme is forced on the whole
/// application, so the windows that are open already turn dark with it.
pub fn effects() -> (plan: Vec<Action>)
    ensures
        plan.deep_view() == effects_plan(),
{
    let backdrop = Effects {
        effects: vec![WindowEffect::HudWindow, WindowEffect::Acrylic],
        state: None,
        radius: Some(24),
        color: None,
    };
    assert(backdrop.effects@ =~= seq![WindowEffect::HudWindow, WindowEffect::Acrylic]);
    let mut config = WindowConfig::new(
        String::from_str(EFFECTS_LABEL),
        String::from_str(EFFECTS_PAGE),
    );
    config.title = Some(String::from_str(EFFECTS_TITLE));
    config.resizable = Some(false);
    config.closable = Some(false);
    config.transparent = Some(true);
    config.theme = Some(Theme::Dark);
    config.inner_size = Some(Size { width: 400, height: 800 });
    config.effects = Some(backdrop);
    let plan = vec![Action::Create(config)];
    assert(plan.deep_view() =~= effects_plan());
    plan
}

/// Opens the floating window, or closes it if it is open: with no
/// decorations, this command is the only way to be rid of it.
pub fn floating(open: &Registry) -> (plan: Vec<Action>)
    ensures
        plan.deep_view() == floating_plan(open@),
{
    let plan = if open.contains(FLOATING_LABEL) {
        vec![Action::Close(String::from_str(FLOATING_LABEL))]
    } else {
        let mut config = WindowConfig::new(
            String::from_str(FLOATING_LABEL),
            String::from_str(INDEX_PAGE),
        );
        config.decorations = Some(false);
        config.always_on_top = Some(true);
        config.inner_size = Some(Size { width: 400, height: 400 });
        config.position = Some(Point { x: 0, y: 0 });
        vec![Action::Create(config)]
    };
    assert(plan.deep_view() =~= floating_plan(open@));
    plan
}

/// Opens the tray window, centres it on the tray icon and has it close when
/// it loses focus.
pub fn position() -> (plan: Vec<Action>)
    ensures
        plan.deep_view() == position_plan(),
{
    let mut config = WindowConfig::new(
        String::from_str(POSITION_LABEL),
        String::from_str(POSITION_PAGE),
    );
    config.decorations = Some(false);
    config.always_on_top = Some(true);
    config.skip_taskbar = Some(true);
    let plan = vec![
        Action::Create(config),
        Action::MoveTo(String::from_str(POSITION_LABEL), Anchor::TrayCenter),
        Action::CloseOnBlur(String::from_str(POSITION_LABEL)),
    ];
    assert(plan.deep_view() =~= position_plan());
    plan
}

/// Answers a tray event: a click opens the tray window, whichever button it
/// was and whether pressed or released; nothing else does anything.
pub fn on_tray_event(event: TrayEvent) -> (plan: Vec<Action>)
    ensures
        plan.deep_view() == tray_plan(event),
{
    match event {
        TrayEvent::Click => position(),
        _ => {
            let plan: Vec<Action> = Vec::new();
            assert(plan.deep_view() =~= tray_plan(event));
            plan
        },
    }
}

/// Answers an event on the window labelled `label`, which is to close when
/// it loses focus.
pub fn on_window_event(label: &str, event: WindowEvent) -> (plan: Vec<Action>)
    ensures
        plan.deep_view() == blur_plan(label@, event),
{
    let plan = match event {
        WindowEvent::Focused(false) => vec![Action::Close(String::from_str(label))],
        _ => Vec::new(),
    };
    assert(plan.deep_view() =~= blur_plan(label@, event));
    plan
}

} // verus!
