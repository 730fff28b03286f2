use vstd::prelude::*;

use crate::plugin::{plugin_at, plugin_order, Plugin, PLUGIN_COUNT};

verus! {

/// One step of the startup sequence, performed by the host on request.
#[derive(Clone, Copy, Debug, PartialEq, Eq, Structural)]
pub enum Step {
    /// Attach a plugin to the application builder.
    RegisterPlugin(Plugin),
    /// In the setup hook: build the (empty) application menu.
    BuildMenu,
    /// In the setup hook: install the built menu as the application's menu.
    InstallMenu,
    /// Start the blocking event loop and run it until the application exits.
    RunEventLoop,
}

/// How the host's attempt at the requested step went.
#[derive(Clone, Copy, Debug, PartialEq, Eq, Structural)]
pub enum Outcome {
    Succeeded,
    Failed,
}

/// What the host is asked to do next.
#[derive(Clone, Copy, Debug, PartialEq, Eq, Structural)]
pub enum Action {
    /// Perform this step and report its outcome.
    Perform(Step),
    /// Every step succeeded and the event loop has ended: exit normally.
    Finish,
    /// A step failed: print the fatal diagnostic and exit with this status.
    Abort { status: i32 },
}

/// Number of steps in a complete startup: the plugins, then the menu is
/// built and installed, then the event loop runs.
pub const STEP_COUNT: usize = PLUGIN_COUNT + 3;

/// Exit status after a fatal startup failure; the status with which a Rust
/// program that panics exits.
pub const FAILURE_STATUS: i32 = 101;

/// The step in position `k` of the startup sequence.
pub open spec fn step_of(k: int) -> Step {
    if k < PLUGIN_COUNT {
        Step::RegisterPlugin(plugin_order()[k])
    } else if k == PLUGIN_COUNT {
        Step::BuildMenu
    } else if k == PLUGIN_COUNT + 1 {
        Step::InstallMenu
    } else {
        Step::RunEventLoop
    }
}

/// The whole startup sequence, in order.
pub open spec fn startup_steps() -> Seq<Step> {
    Seq::new(STEP_COUNT as nat, |k: int| step_of(k))
}

/// Abstract state of a startup: how many steps of the sequence have
/// succeeded, and whether one has failed.
pub struct Progress {
    pub completed: nat,
    pub failed: bool,
}

pub open spec fn initial_progress() -> Progress {
    Progress { completed: 0, failed: false }
}

/// The action that a startup in state `p` asks for.
pub open spec fn action_of(p: Progress) -> Action {
    if p.failed {
        Action::Abort { status: FAILURE_STATUS }
    } else if p.completed < STEP_COUNT {
        Action::Perform(step_of(p.completed as int))
    } else {
        Action::Finish
    }
}

/// The state after the host reports outcome `o` of the requested step.
/// A failure is final; a success moves on to the next step; once the
/// startup has finished or failed, further reports change nothing.
pub open spec fn next_progress(p: Progress, o: Outcome) -> Progress {
    if p.failed || p.completed >= STEP_COUNT {
        p
    } else {
        match o {
            Outcome::Succeeded => Progress { completed: p.completed + 1, failed: false },
            Outcome::Failed => Progress { completed: p.completed, failed: true },
        }
    }
}

/// The state after a series of reported outcomes.
pub open spec fn run_outcomes(p: Progress, outs: Seq<Outcome>) -> Progress
    decreases outs.len(),
{
    if outs.len() == 0 {
        p
    } else {
        run_outcomes(next_progress(p, outs[0]), outs.drop_first())
    }
}

/// The steps that were performed with success over a series of reported
/// outcomes, in the order in which they were performed.
pub open spec fn performed(p: Progress, outs: Seq<Outcome>) -> Seq<Step>
    decreases outs.len(),
{
    if outs.len() == 0 {
        Seq::empty()
    } else {
        let done = if !p.failed && p.completed < STEP_COUNT && outs[0] == Outcome::Succeeded {
            seq![step_of(p.completed as int)]
        } else {
            Seq::empty()
        };
        done + performed(next_progress(p, outs[0]), outs.drop_first())
    }
}

/// The diagnostic printed when startup fails.
pub open spec fn fatal_message() -> Seq<char> {
    "error while running tauri application"@
}

/// Returns the diagnostic printed when startup fails.
pub fn fatal_diagnostic() -> (r: String)
    ensures
        r@ == fatal_message(),
        r@.len() > 0,
{
    proof {
        reveal_strlit("error while running tauri application");
    }
    "error while running tauri application".to_string()
}

/// The startup of one application: the state that decides, step by step,
/// what the host does next.
pub struct Bootstrap {
    completed: usize,
    failed: bool,
}

impl View for Bootstrap {
    type V = Progress;

    closed spec fn view(&self) -> Progress {
        Progress { completed: self.completed as nat, failed: self.failed }
    }
}

fn step_at(k: usize) -> (s: Step)
    requires
        k < STEP_COUNT,
    ensures
        s == step_of(k as int),
{
    if k < PLUGIN_COUNT {
        Step::RegisterPlugin(plugin_at(k))
    } else if k == PLUGIN_COUNT {
        Step::BuildMenu
    } else if k == PLUGIN_COUNT + 1 {
        Step::InstallMenu
    } else {
        Step::RunEventLoop
    }
}

impl Bootstrap {
    pub open spec fn wf(&self) -> bool {
        self@.completed <= STEP_COUNT
    }

    /// A startup with no step performed yet.
    pub fn new() -> (r: Bootstrap)
        ensures
            r.wf(),
            r@ == initial_progress(),
    {
        Bootstrap { completed: 0, failed: false }
    }

    /// The number of steps that have succeeded.
    pub fn completed_steps(&self) -> (r: usize)
        ensures
            r == self@.completed,
    {
        self.completed
    }

    /// Whether a step has failed.
    pub fn has_failed(&self) -> (r: bool)
        ensures
            r == self@.failed,
    {
        self.failed
    }

    /// What the host is to do next.
    pub fn next_action(&self) -> (a: Action)
        requires
            self.wf(),
        ensures
            a == action_of(self@),
    {
        if self.failed {
            Action::Abort { status: FAILURE_STATUS }
        } else if self.completed < STEP_COUNT {
            Action::Perform(step_at(self.completed))
        } else {
            Action::Finish
        }
    }

    /// Records the outcome of the requested step and returns the next action.
    pub fn report(&mut self, o: Outcome) -> (a: Action)
        requires
            old(self).wf(),
        ensures
            final(self).wf(),
            final(self)@ == next_progress(old(self)@, o),
            a == action_of(final(self)@),
    {
        if !self.failed && self.completed < STEP_COUNT {
            match o {
                Outcome::Succeeded => self.completed = self.completed + 1,
                Outcome::Failed => self.failed = true,
            }
        }
        self.next_action()
    }
}

} // verus!
