//! When a command is executed again: the decisions of a run, step by step.
//!
//! The schedule only decides. Whoever drives it executes the command, sleeps
//! through the pause and asks for the next step; after a failed execution it
//! asks no more.

use crate::cli::{Cli, Interval};
use vstd::prelude::*;

verus! {

/// What is to be done next.
#[derive(Debug, Clone, Copy, PartialEq, Eq, Structural)]
pub enum Step {
    /// Take a fresh snapshot and execute the command on it.
    Execute,
    /// Pause for the interval.
    Sleep(Interval),
    /// Nothing is left to do.
    Finish,
}

/// How far a run has come.
#[derive(Debug, Clone, Copy, PartialEq, Eq, Structural)]
pub struct Schedule {
    /// How many executions are asked for; 0 stands for without end.
    pub run_times: u32,
    pub interval: Option<Interval>,
    /// How many executions were counted. Without end none is counted.
    pub executed: u64,
    /// Whether the pause after the last execution is still to come.
    pub owes_pause: bool,
}

impl Schedule {
    /// The step that comes next.
    pub open spec fn step(self) -> Step {
        if self.owes_pause && self.interval is Some {
            Step::Sleep(self.interval->Some_0)
        } else if self.run_times > 0 && self.executed >= self.run_times {
            Step::Finish
        } else {
            Step::Execute
        }
    }

    /// The schedule after its next step. A command that is executed once
    /// is not followed by a pause; every other execution is, where there is
    /// an interval.
    pub open spec fn after_step(self) -> Schedule {
        match self.step() {
            Step::Sleep(_) => Schedule { owes_pause: false, ..self },
            Step::Finish => Schedule { owes_pause: false, ..self },
            Step::Execute => Schedule {
                executed: if self.run_times != 0 {
                    (self.executed + 1) as u64
                } else {
                    self.executed
                },
                owes_pause: self.run_times != 1 && self.interval is Some,
                ..self
            },
        }
    }

    /// The schedule at the start of a run.
    pub fn new(cli: &Cli) -> (r: Self)
        ensures
            r == (Schedule {
                run_times: cli.run_times,
                interval: cli.interval,
                executed: 0,
                owes_pause: false,
            }),
    {
        Schedule {
            run_times: cli.run_times,
            interval: cli.interval,
            executed: 0,
            owes_pause: false,
        }
    }

    /// Takes the next step: says what is to be done and moves on.
    pub fn next(&mut self) -> (r: Step)
        ensures
            r == old(self).step(),
            *final(self) == old(self).after_step(),
    {
        if self.owes_pause {
            self.owes_pause = false;
            if let Some(interval) = self.interval {
                return Step::Sleep(interval);
            }
        }
        if self.run_times > 0 && self.executed >= self.run_times as u64 {
            return Step::Finish;
        }
        if self.run_times != 0 {
            self.executed = self.executed + 1;
        }
        self.owes_pause = self.run_times != 1 && self.interval.is_some();
        Step::Execute
    }
}

/// A run of `n > 0` executions that has counted `k < n` of them executes
/// the command next or pauses first, and it finishes once it has counted `n`
/// and owes no pause.
pub proof fn lemma_counted_run(s: Schedule)
    requires
        s.run_times > 0,
    ensures
        s.step() is Finish <==> s.executed >= s.run_times && !(s.owes_pause && s.interval is Some),
        s.step() is Execute ==> s.after_step().executed == s.executed + 1,
        s.step() is Sleep ==> s.after_step().executed == s.executed && s.after_step().step()
            !is Sleep,
{
}

/// A run without end never finishes.
pub proof fn lemma_endless_run(s: Schedule)
    requires
        s.run_times == 0,
    ensures
        s.step() !is Finish,
        s.after_step().run_times == 0,
{
}

} // verus!
