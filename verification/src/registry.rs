//! The shell's picture of the table of open windows.
//!
//! The windowing layer owns the real table. A [`Registry`] holds what the
//! shell's decisions read from it, the labels of the open windows in the
//! order in which they were opened, and follows each request as the
//! windowing layer answers it: a label is never open twice, a window that is
//! not there can be neither focused, moved nor closed, and a request that
//! fails changes nothing.

use vstd::prelude::*;
use vstd::string::StringExecFns;
use crate::action::{Action, ActionSpec, WindowError};

verus! {

/// `windows` with the window labelled `label` taken out, if there is one.
pub open spec fn without(windows: Seq<Seq<char>>, label: Seq<char>) -> Seq<Seq<char>> {
    if windows.contains(label) {
        windows.remove(windows.index_of(label))
    } else {
        windows
    }
}

/// Whether a request goes through: the windowing layer must grant it, a new
/// window needs a label that is free, and every other request needs its
/// window to be open.
pub open spec fn succeeds(windows: Seq<Seq<char>>, action: ActionSpec, granted: bool) -> bool {
    granted && match action {
        ActionSpec::Create(config) => !windows.contains(config.label),
        _ => windows.contains(action.label()),
    }
}

/// The open windows after a request: one more at the end after a window was
/// opened, one fewer after one was closed, the same in every other case.
pub open spec fn after(windows: Seq<Seq<char>>, action: ActionSpec, granted: bool) -> Seq<
    Seq<char>,
> {
    if succeeds(windows, action, granted) {
        match action {
            ActionSpec::Create(config) => windows.push(config.label),
            ActionSpec::Close(label) => without(windows, label),
            _ => windows,
        }
    } else {
        windows
    }
}

/// How a plan ended: the windows that are open, and whether every step went
/// through.
pub struct Outcome {
    pub windows: Seq<Seq<char>>,
    pub ok: bool,
}

/// Whether the windowing layer grants step number `step` when it refuses the
/// step `fault_at`, if any.
pub open spec fn granted_at(fault_at: Option<usize>, step: int) -> bool {
    match fault_at {
        Some(fault) => fault != step,
        None => true,
    }
}

/// The outcome of the steps of `plan` from number `step` on, taken in order
/// up to the first that fails.
pub open spec fn run_from(
    windows: Seq<Seq<char>>,
    plan: Seq<ActionSpec>,
    fault_at: Option<usize>,
    step: int,
) -> Outcome
    decreases plan.len() - step,
{
    if step < 0 || step >= plan.len() {
        Outcome { windows, ok: true }
    } else if succeeds(windows, plan[step], granted_at(fault_at, step)) {
        run_from(after(windows, plan[step], granted_at(fault_at, step)), plan, fault_at, step + 1)
    } else {
        Outcome { windows, ok: false }
    }
}

/// The outcome of a whole plan: its steps are taken in order, and the first
/// that fails ends it.
pub open spec fn outcome(windows: Seq<Seq<char>>, plan: Seq<ActionSpec>, fault_at: Option<usize>)
    -> Outcome {
    run_from(windows, plan, fault_at, 0)
}

/// The labels of the open windows, oldest first. No label occurs twice.
pub struct Registry {
    labels: Vec<String>,
}

impl View for Registry {
    type V = Seq<Seq<char>>;

    closed spec fn view(&self) -> Seq<Seq<char>> {
        self.labels.deep_view()
    }
}

impl Registry {
    /// What holds of every registry: no label is open twice.
    pub open spec fn wf(&self) -> bool {
        self@.no_duplicates()
    }

    /// A registry with no window open.
    pub fn new() -> (registry: Registry)
        ensures
            registry.wf(),
            registry@ == Seq::<Seq<char>>::empty(),
    {
        let registry = Registry { labels: Vec::new() };
        assert(registry@ =~= Seq::<Seq<char>>::empty());
        registry
    }

    /// How many windows are open.
    pub fn len(&self) -> (count: usize)
        ensures
            count == self@.len(),
    {
        self.labels.len()
    }

    /// Where in the table the window labelled `label` stands.
    fn position_of(&self, label: &str) -> (found: Option<usize>)
        ensures
            match found {
                Some(index) => index < self@.len() && self@[index as int] == label@,
                None => !self@.contains(label@),
            },
    {
        let wanted = String::from_str(label);
        let mut index: usize = 0;
        while index < self.labels.len()
            invariant
                index <= self.labels.len(),
                wanted@ == label@,
                forall|earlier: int| 0 <= earlier < index ==> self@[earlier] != label@,
            decreases self.labels.len() - index,
        {
            if self.labels[index] == wanted {
                return Some(index);
            }
            index += 1;
        }
        None
    }

    /// Whether a window labelled `label` is open.
    pub fn contains(&self, label: &str) -> (found: bool)
        ensures
            found == self@.contains(label@),
    {
        self.position_of(label).is_some()
    }

    /// The labels of the open windows, oldest first.
    pub fn labels(&self) -> (labels: Vec<String>)
        ensures
            labels.deep_view() == self@,
    {
        let labels = self.labels.clone();
        assert(labels.deep_view() =~= self@);
        labels
    }

    /// Opens a window labelled `label`, unless that label is taken.
    pub fn create(&mut self, label: String) -> (result: Result<(), WindowError>)
        requires
            old(self).wf(),
        ensures
            final(self).wf(),
            result.is_ok() == !old(self)@.contains(label@),
            final(self)@ == if result.is_ok() {
                old(self)@.push(label@)
            } else {
                old(self)@
            },
    {
        if self.position_of(label.as_str()).is_some() {
            return Err(WindowError::OperationFailed);
        }
        let ghost before = self@;
        let ghost text = label@;
        self.labels.push(label);
        assert(self@ =~= before.push(text));
        Ok(())
    }

    /// Closes the window labelled `label`, if it is open.
    pub fn close(&mut self, label: &str) -> (result: Result<(), WindowError>)
        requires
            old(self).wf(),
        ensures
            final(self).wf(),
            result.is_ok() == old(self)@.contains(label@),
            final(self)@ == without(old(self)@, label@),
    {
        match self.position_of(label) {
            Some(index) => {
                let ghost before = self@;
                assert(before.index_of(label@) == index);
                self.labels.remove(index);
                assert(self@ =~= before.remove(index as int));
                Ok(())
            },
            None => Err(WindowError::OperationFailed),
        }
    }

    /// Follows one request. `granted` says whether the windowing layer
    /// carries it out; a request that cannot be met is refused in any case.
    pub fn perform(&mut self, action: &Action, granted: bool) -> (result: Result<(), WindowError>)
        requires
            old(self).wf(),
        ensures
            final(self).wf(),
            result.is_ok() == succeeds(old(self)@, action@, granted),
            final(self)@ == after(old(self)@, action@, granted),
    {
        if !granted {
            return Err(WindowError::OperationFailed);
        }
        match action {
            Action::Create(config) => self.create(config.label.clone()),
            Action::Close(label) => self.close(label.as_str()),
            Action::Focus(label) | Action::MoveTo(label, _) | Action::CloseOnBlur(label) => {
                if self.contains(label.as_str()) {
                    Ok(())
                } else {
                    Err(WindowError::OperationFailed)
                }
            },
        }
    }

    /// Follows a plan: its steps in order, up to the first that fails. The
    /// windowing layer refuses the step numbered `fault_at`, counted from
    /// zero, and grants every other.
    pub fn run(&mut self, plan: &Vec<Action>, fault_at: Option<usize>) -> (result: Result<
        (),
        WindowError,
    >)
        requires
            old(self).wf(),
        ensures
            final(self).wf(),
            outcome(old(self)@, plan.deep_view(), fault_at) == (Outcome {
                windows: final(self)@,
                ok: result.is_ok(),
            }),
    {
        let mut step: usize = 0;
        while step < plan.len()
            invariant
                self.wf(),
                step <= plan.len(),
                run_from(self@, plan.deep_view(), fault_at, step as int) == outcome(
                    old(self)@,
                    plan.deep_view(),
                    fault_at,
                ),
            decreases plan.len() - step,
        {
            let granted = match fault_at {
                Some(fault) => fault != step,
                None => true,
            };
            match self.perform(&plan[step], granted) {
                Ok(()) => {},
                Err(error) => {
                    return Err(error);
                },
            }
            step += 1;
        }
        Ok(())
    }
}

} // verus!
