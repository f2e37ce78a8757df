//! What holds of the windows as commands and events follow one another.
//!
//! Each statement is about the open windows, oldest first, and about the
//! outcome of a plan: the windows that are open once its steps were taken in
//! order up to the first that failed, and whether all of them went through.

use vstd::prelude::*;
use crate::action::{ActionSpec, Anchor, TrayEvent, WindowEvent};
use crate::command::{
    blur_plan,
    effects_plan,
    floating_plan,
    new_window_or_focus_plan,
    new_window_plan,
    position_plan,
    tray_plan,
};
use crate::label::{
    lemma_numbered_label_not_fixed,
    lemma_numbered_labels_distinct,
    numbered_label,
    EFFECTS_LABEL,
    FLOATING_LABEL,
    FOCUS_LABEL,
    POSITION_LABEL,
};
use crate::registry::{after, granted_at, outcome, run_from, without, Outcome};

verus! {

/// The numbering is intact when every numbered window that is open was
/// opened at a count below the present one. Closing a window while a later
/// one stays open breaks it.
pub open spec fn numbering_intact(windows: Seq<Seq<char>>) -> bool {
    forall|count: nat| #[trigger]
        windows.contains(numbered_label(count)) ==> count < windows.len()
}

/// The open windows after `calls` calls of `new_window` in a row, each one
/// granted by the windowing layer.
pub open spec fn after_new_windows(windows: Seq<Seq<char>>, calls: nat) -> Seq<Seq<char>>
    decreases calls,
{
    if calls == 0 {
        windows
    } else {
        after_new_windows(
            outcome(windows, new_window_plan(windows), None).windows,
            (calls - 1) as nat,
        )
    }
}

/// Taking out the window that was opened last gives back the windows from
/// before it was opened.
pub proof fn lemma_without_newest(windows: Seq<Seq<char>>, label: Seq<char>)
    requires
        !windows.contains(label),
    ensures
        without(windows.push(label), label) == windows,
{
    let opened = windows.push(label);
    assert(opened[windows.len() as int] == label);
    let index = opened.index_of(label);
    if index < windows.len() {
        assert(windows[index] == label);
    }
    assert(opened.remove(index) =~= windows);
}

/// No request makes a label occur twice.
pub proof fn lemma_request_keeps_labels_distinct(
    windows: Seq<Seq<char>>,
    action: ActionSpec,
    granted: bool,
)
    requires
        windows.no_duplicates(),
    ensures
        after(windows, action, granted).no_duplicates(),
{
    match action {
        ActionSpec::Create(config) => {
            let opened = windows.push(config.label);
            if !windows.contains(config.label) {
                assert forall|i: int, j: int|
                    0 <= i < opened.len() && 0 <= j < opened.len() && i != j implies opened[i]
                    != opened[j] by {
                    if i < windows.len() && j < windows.len() {
                    } else if i < windows.len() {
                        assert(windows[i] != config.label);
                    } else {
                        assert(windows[j] != config.label);
                    }
                }
            }
        },
        _ => {},
    }
}

/// No plan makes a label occur twice, wherever it ends.
pub proof fn lemma_plan_keeps_labels_distinct(
    windows: Seq<Seq<char>>,
    plan: Seq<ActionSpec>,
    fault_at: Option<usize>,
)
    requires
        windows.no_duplicates(),
    ensures
        outcome(windows, plan, fault_at).windows.no_duplicates(),
{
    lemma_run_keeps_labels_distinct(windows, plan, fault_at, 0);
}

proof fn lemma_run_keeps_labels_distinct(
    windows: Seq<Seq<char>>,
    plan: Seq<ActionSpec>,
    fault_at: Option<usize>,
    step: int,
)
    requires
        windows.no_duplicates(),
    ensures
        run_from(windows, plan, fault_at, step).windows.no_duplicates(),
    decreases plan.len() - step,
{
    if 0 <= step < plan.len() {
        let granted = granted_at(fault_at, step);
        lemma_request_keeps_labels_distinct(windows, plan[step], granted);
        lemma_run_keeps_labels_distinct(
            after(windows, plan[step], granted),
            plan,
            fault_at,
            step + 1,
        );
    }
}

/// A plan whose first step opens a window, and finds the windowing layer
/// unable to, fails and leaves the open windows as they were.
pub proof fn lemma_refused_creation_changes_nothing(windows: Seq<Seq<char>>, plan: Seq<ActionSpec>)
    requires
        plan.len() > 0,
        plan[0] is Create,
    ensures
        outcome(windows, plan, Some(0usize)) == (Outcome { windows, ok: false }),
{
}

/// Whichever command or tray click is about to open a window: when the
/// windowing layer cannot open it, the failure comes back and the open
/// windows stay as they were.
pub proof fn lemma_commands_surface_refusal(windows: Seq<Seq<char>>)
    ensures
        outcome(windows, new_window_plan(windows), Some(0usize)) == (Outcome { windows, ok: false }),
        outcome(windows, effects_plan(), Some(0usize)) == (Outcome { windows, ok: false }),
        outcome(windows, tray_plan(TrayEvent::Click), Some(0usize)) == (Outcome {
            windows,
            ok: false,
        }),
        !windows.contains(FOCUS_LABEL@) ==> outcome(
            windows,
            new_window_or_focus_plan(windows),
            Some(0usize),
        ) == (Outcome { windows, ok: false }),
        !windows.contains(FLOATING_LABEL@) ==> outcome(
            windows,
            floating_plan(windows),
            Some(0usize),
        ) == (Outcome { windows, ok: false }),
{
    lemma_refused_creation_changes_nothing(windows, new_window_plan(windows));
    lemma_refused_creation_changes_nothing(windows, effects_plan());
    lemma_refused_creation_changes_nothing(windows, tray_plan(TrayEvent::Click));
    if !windows.contains(FOCUS_LABEL@) {
        lemma_refused_creation_changes_nothing(windows, new_window_or_focus_plan(windows));
    }
    if !windows.contains(FLOATING_LABEL@) {
        lemma_refused_creation_changes_nothing(windows, floating_plan(windows));
    }
}

/// A command that fails, for whatever reason, leaves the open windows as
/// they were: none of the four asks for more than one thing.
pub proof fn lemma_failed_command_changes_nothing(
    windows: Seq<Seq<char>>,
    fault_at: Option<usize>,
)
    ensures
        !outcome(windows, new_window_plan(windows), fault_at).ok ==> outcome(
            windows,
            new_window_plan(windows),
            fault_at,
        ).windows == windows,
        !outcome(windows, new_window_or_focus_plan(windows), fault_at).ok ==> outcome(
            windows,
            new_window_or_focus_plan(windows),
            fault_at,
        ).windows == windows,
        !outcome(windows, effects_plan(), fault_at).ok ==> outcome(
            windows,
            effects_plan(),
            fault_at,
        ).windows == windows,
        !outcome(windows, floating_plan(windows), fault_at).ok ==> outcome(
            windows,
            floating_plan(windows),
            fault_at,
        ).windows == windows,
{
    reveal_with_fuel(run_from, 2);
}

/// While the numbering is intact, `new_window` opens exactly one window,
/// under a label that was free, and the numbering stays intact.
pub proof fn lemma_new_window_opens_fresh(windows: Seq<Seq<char>>)
    requires
        numbering_intact(windows),
    ensures
        !windows.contains(numbered_label(windows.len())),
        outcome(windows, new_window_plan(windows), None) == (Outcome {
            windows: windows.push(numbered_label(windows.len())),
            ok: true,
        }),
        numbering_intact(windows.push(numbered_label(windows.len()))),
{
    reveal_with_fuel(run_from, 2);
    let label = numbered_label(windows.len());
    assert forall|count: nat| label == #[trigger] numbered_label(count) implies count
        <= windows.len() by {
        if count != windows.len() {
            lemma_numbered_labels_distinct(count, windows.len());
        }
    }
    lemma_numbering_survives_opening(windows, label);
}

/// Opening a window keeps the numbering intact, unless its label is a
/// numbered one from beyond the present count.
pub proof fn lemma_numbering_survives_opening(windows: Seq<Seq<char>>, label: Seq<char>)
    requires
        numbering_intact(windows),
        forall|count: nat| label == #[trigger] numbered_label(count) ==> count <= windows.len(),
    ensures
        numbering_intact(windows.push(label)),
{
    let opened = windows.push(label);
    assert forall|count: nat| #[trigger]
        opened.contains(numbered_label(count)) implies count < opened.len() by {
        let index = opened.index_of(numbered_label(count));
        if index < windows.len() {
            assert(windows[index] == numbered_label(count));
            assert(windows.contains(numbered_label(count)));
        } else {
            assert(label == numbered_label(count));
        }
    }
}

/// Opening one of the four fixed windows keeps the numbering intact.
pub proof fn lemma_numbering_survives_fixed_windows(windows: Seq<Seq<char>>)
    requires
        numbering_intact(windows),
    ensures
        numbering_intact(windows.push(FOCUS_LABEL@)),
        numbering_intact(windows.push(EFFECTS_LABEL@)),
        numbering_intact(windows.push(FLOATING_LABEL@)),
        numbering_intact(windows.push(POSITION_LABEL@)),
{
    assert forall|count: nat|
        {
            &&& FOCUS_LABEL@ != #[trigger] numbered_label(count)
            &&& EFFECTS_LABEL@ != numbered_label(count)
            &&& FLOATING_LABEL@ != numbered_label(count)
            &&& POSITION_LABEL@ != numbered_label(count)
        } by {
        lemma_numbered_label_not_fixed(count);
    }
    lemma_numbering_survives_opening(windows, FOCUS_LABEL@);
    lemma_numbering_survives_opening(windows, EFFECTS_LABEL@);
    lemma_numbering_survives_opening(windows, FLOATING_LABEL@);
    lemma_numbering_survives_opening(windows, POSITION_LABEL@);
}

/// While the numbering is intact and nothing is closed, calls of
/// `new_window` in a row open one window each, the windows from before stay
/// in place, and the new ones carry the counts at which they were opened: no
/// two of them share a label, and none takes the label of an older window.
pub proof fn lemma_new_windows_in_a_row(windows: Seq<Seq<char>>, calls: nat)
    requires
        windows.no_duplicates(),
        numbering_intact(windows),
    ensures
        after_new_windows(windows, calls).len() == windows.len() + calls,
        after_new_windows(windows, calls).subrange(0, windows.len() as int) == windows,
        forall|call: int|
            0 <= call < calls ==> #[trigger] after_new_windows(windows, calls)[windows.len() + call]
                == numbered_label((windows.len() + call) as nat),
        after_new_windows(windows, calls).no_duplicates(),
        numbering_intact(after_new_windows(windows, calls)),
    decreases calls,
{
    if calls == 0 {
        assert(windows.subrange(0, windows.len() as int) =~= windows);
    } else {
        let label = numbered_label(windows.len());
        let next = windows.push(label);
        lemma_new_window_opens_fresh(windows);
        lemma_request_keeps_labels_distinct(windows, new_window_plan(windows)[0], true);
        assert(after(windows, new_window_plan(windows)[0], true) == next);
        lemma_new_windows_in_a_row(next, (calls - 1) as nat);
        let last = after_new_windows(windows, calls);
        let old_count = windows.len() as int;
        assert(last == after_new_windows(next, (calls - 1) as nat));
        assert(last.subrange(0, old_count) =~= last.subrange(0, old_count + 1).subrange(
            0,
            old_count,
        ));
        assert(next.subrange(0, old_count) =~= windows);
        assert forall|call: int| 0 <= call < calls implies #[trigger] last[old_count + call]
            == numbered_label((old_count + call) as nat) by {
            if call == 0 {
                assert(last.subrange(0, old_count + 1)[old_count] == next[old_count]);
            } else {
                assert(last[next.len() + (call - 1)] == numbered_label(
                    (next.len() + (call - 1)) as nat,
                ));
            }
        }
    }
}

/// Two plans of `new_window`, made at different counts, ask for windows with
/// different labels.
pub proof fn lemma_new_window_labels_differ(earlier: Seq<Seq<char>>, later: Seq<Seq<char>>)
    requires
        earlier.len() != later.len(),
    ensures
        new_window_plan(earlier)[0].label() != new_window_plan(later)[0].label(),
{
    lemma_numbered_labels_distinct(earlier.len(), later.len());
}

/// When the label that `new_window` writes is taken, which can only be once
/// the numbering is broken, the command fails and opens nothing.
pub proof fn lemma_new_window_collides(windows: Seq<Seq<char>>, fault_at: Option<usize>)
    requires
        windows.contains(numbered_label(windows.len())),
    ensures
        !numbering_intact(windows),
        outcome(windows, new_window_plan(windows), fault_at) == (Outcome { windows, ok: false }),
{
}

/// With no focus window open, `new_window_or_focus` opens exactly one, and
/// called again it asks for focus and neither opens nor closes anything.
pub proof fn lemma_focus_window_opens_once(windows: Seq<Seq<char>>)
    requires
        !windows.contains(FOCUS_LABEL@),
    ensures
        outcome(windows, new_window_or_focus_plan(windows), None) == (Outcome {
            windows: windows.push(FOCUS_LABEL@),
            ok: true,
        }),
        new_window_or_focus_plan(windows.push(FOCUS_LABEL@)) == seq![
            ActionSpec::Focus(FOCUS_LABEL@),
        ],
        outcome(
            windows.push(FOCUS_LABEL@),
            new_window_or_focus_plan(windows.push(FOCUS_LABEL@)),
            None,
        ) == (Outcome { windows: windows.push(FOCUS_LABEL@), ok: true }),
{
    reveal_with_fuel(run_from, 2);
    let opened = windows.push(FOCUS_LABEL@);
    assert(opened[windows.len() as int] == FOCUS_LABEL@);
}

/// With the focus window open, `new_window_or_focus` changes nothing about
/// which windows are open.
pub proof fn lemma_focus_keeps_windows(windows: Seq<Seq<char>>, fault_at: Option<usize>)
    requires
        windows.contains(FOCUS_LABEL@),
    ensures
        outcome(windows, new_window_or_focus_plan(windows), fault_at).windows == windows,
        outcome(windows, new_window_or_focus_plan(windows), None).ok,
{
    reveal_with_fuel(run_from, 2);
}

/// With no effects window open, `effects` opens exactly one; called again
/// while it is open, it fails and opens no second one.
pub proof fn lemma_effects_window_opens_once(windows: Seq<Seq<char>>)
    requires
        !windows.contains(EFFECTS_LABEL@),
    ensures
        outcome(windows, effects_plan(), None) == (Outcome {
            windows: windows.push(EFFECTS_LABEL@),
            ok: true,
        }),
        outcome(windows.push(EFFECTS_LABEL@), effects_plan(), None) == (Outcome {
            windows: windows.push(EFFECTS_LABEL@),
            ok: false,
        }),
{
    reveal_with_fuel(run_from, 2);
    let opened = windows.push(EFFECTS_LABEL@);
    assert(opened[windows.len() as int] == EFFECTS_LABEL@);
}

/// `floating` is a switch: with no floating window open it opens one, and
/// called again it closes that window, which leaves the windows from before.
pub proof fn lemma_floating_toggles(windows: Seq<Seq<char>>)
    requires
        !windows.contains(FLOATING_LABEL@),
    ensures
        outcome(windows, floating_plan(windows), None) == (Outcome {
            windows: windows.push(FLOATING_LABEL@),
            ok: true,
        }),
        outcome(
            windows.push(FLOATING_LABEL@),
            floating_plan(windows.push(FLOATING_LABEL@)),
            None,
        ) == (Outcome { windows, ok: true }),
{
    reveal_with_fuel(run_from, 2);
    let opened = windows.push(FLOATING_LABEL@);
    assert(opened[windows.len() as int] == FLOATING_LABEL@);
    lemma_without_newest(windows, FLOATING_LABEL@);
}

/// A tray click with no tray window open opens exactly one, centred on the
/// tray icon and set to close when it loses focus; when it then loses focus,
/// it closes, which leaves the windows from before.
pub proof fn lemma_tray_click_opens_tray_window(windows: Seq<Seq<char>>)
    requires
        !windows.contains(POSITION_LABEL@),
    ensures
        tray_plan(TrayEvent::Click)[1] == ActionSpec::MoveTo(POSITION_LABEL@, Anchor::TrayCenter),
        tray_plan(TrayEvent::Click)[2] == ActionSpec::CloseOnBlur(POSITION_LABEL@),
        outcome(windows, tray_plan(TrayEvent::Click), None) == (Outcome {
            windows: windows.push(POSITION_LABEL@),
            ok: true,
        }),
        outcome(
            windows.push(POSITION_LABEL@),
            blur_plan(POSITION_LABEL@, WindowEvent::Focused(false)),
            None,
        ) == (Outcome { windows, ok: true }),
{
    reveal_with_fuel(run_from, 4);
    let opened = windows.push(POSITION_LABEL@);
    assert(opened[windows.len() as int] == POSITION_LABEL@);
    lemma_without_newest(windows, POSITION_LABEL@);
}

/// A tray click while the tray window is open fails at its first step and
/// opens no second one.
pub proof fn lemma_tray_click_while_open(windows: Seq<Seq<char>>, fault_at: Option<usize>)
    requires
        windows.contains(POSITION_LABEL@),
    ensures
        outcome(windows, tray_plan(TrayEvent::Click), fault_at) == (Outcome { windows, ok: false }),
{
}

/// When the tray window opens but cannot be moved, the plan ends there: the
/// window stays open where it came up.
pub proof fn lemma_refused_move_leaves_tray_window(windows: Seq<Seq<char>>)
    requires
        !windows.contains(POSITION_LABEL@),
    ensures
        outcome(windows, position_plan(), Some(1usize)) == (Outcome {
            windows: windows.push(POSITION_LABEL@),
            ok: false,
        }),
{
    reveal_with_fuel(run_from, 3);
    let opened = windows.push(POSITION_LABEL@);
    assert(opened[windows.len() as int] == POSITION_LABEL@);
}

/// Only a click on the tray icon, and only the loss of focus, set anything
/// off.
pub proof fn lemma_other_events_do_nothing(
    windows: Seq<Seq<char>>,
    tray: TrayEvent,
    label: Seq<char>,
    event: WindowEvent,
    fault_at: Option<usize>,
)
    ensures
        tray != TrayEvent::Click ==> outcome(windows, tray_plan(tray), fault_at) == (Outcome {
            windows,
            ok: true,
        }),
        event != WindowEvent::Focused(false) ==> outcome(
            windows,
            blur_plan(label, event),
            fault_at,
        ) == (Outcome { windows, ok: true }),
{
}

} // verus!
