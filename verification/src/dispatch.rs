//! The run as a whole: one unit of work for each line of the input, a count of
//! the units that are done, and the summary once all of them are.

use crate::config::{Config, ConfigView};
use crate::decimal::{decimal, decimal_text};
use crate::fetch::{opening, Action, FetchUnit};
use crate::outcome::Outcome;
use crate::tally::{RunEvent, Tally};
use vstd::prelude::*;
use vstd::string::*;

verus! {

/// The counts that a finished run reports.
#[derive(Clone, Copy, Debug, PartialEq, Eq, Structural)]
pub struct Summary {
    /// Units launched.
    pub total: u64,
    /// Units that did not fail.
    pub succeeded: u64,
    /// Units that failed.
    pub failed: u64,
}

impl Summary {
    /// The summary reports these counts: the units launched, those of them that
    /// failed, and the rest as successes.
    pub open spec fn reports(self, tally: Tally) -> bool {
        &&& self.total == tally.launched
        &&& self.failed == tally.failed
        &&& self.succeeded == tally.launched - tally.failed
    }
}

/// The status line for the unit with this number: the number, that the total is
/// not known yet, and the line that the unit works on.
pub open spec fn progress_text(number: nat, line: Seq<char>) -> Seq<char> {
    decimal_text(number) + " / ? processing "@ + line
}

/// The closing line of a run: how many of how many units succeeded and, where
/// bodies were saved, in which directory.
pub open spec fn summary_text(summary: Summary, config: ConfigView) -> Seq<char> {
    let counts = decimal_text(summary.succeeded as nat) + " / "@ + decimal_text(
        summary.total as nat,
    ) + " URLs successfully requested!"@;
    if config.stdout {
        counts
    } else {
        counts + "\nResponses saved in "@ + config.directory + " directory"@
    }
}

/// A unit that was just launched.
#[derive(Debug, PartialEq, Eq)]
pub struct Launch {
    /// The number of the unit, counted from one in the order of the lines.
    pub number: u64,
    /// The status line to show.
    pub progress: String,
    /// The unit.
    pub unit: FetchUnit,
    /// The first action of the unit.
    pub action: Action,
}

/// The state of a run.
#[derive(Debug)]
pub struct Dispatcher {
    launched: u64,
    completed: u64,
    failed: u64,
    closed: bool,
}

impl View for Dispatcher {
    type V = Tally;

    closed spec fn view(&self) -> Tally {
        Tally {
            launched: self.launched as nat,
            completed: self.completed as nat,
            failed: self.failed as nat,
            closed: self.closed,
        }
    }
}

impl Dispatcher {
    #[verifier::type_invariant]
    spec fn ordered(self) -> bool {
        self.failed <= self.completed && self.completed <= self.launched
    }

    /// A run that has read nothing yet.
    pub fn new() -> (dispatcher: Dispatcher)
        ensures
            dispatcher@ == Tally::start(),
    {
        Dispatcher { launched: 0, completed: 0, failed: 0, closed: false }
    }

    /// Units launched so far.
    pub fn launched(&self) -> (count: u64)
        ensures
            count == self@.launched,
            self@.well_formed(),
    {
        proof {
            use_type_invariant(self);
        }
        self.launched
    }

    /// Takes one line of the input and launches the unit for it, whatever the line
    /// holds. After the end of the input nothing is launched.
    pub fn dispatch(&mut self, config: &Config, line: String) -> (launch: Option<Launch>)
        requires
            old(self)@.launched < u64::MAX,
        ensures
            final(self)@ == old(self)@.step(RunEvent::Line),
            launch.is_some() == !old(self)@.closed,
            launch matches Some(started) ==> {
                &&& started.number == old(self)@.launched + 1
                &&& started.progress@ == progress_text(started.number as nat, line@)
                &&& started.unit.url@ == line@
                &&& (started.unit.phase, started.action@) == opening(config@, line@)
            },
    {
        proof {
            use_type_invariant(&*self);
        }
        if self.closed {
            return None;
        }
        self.launched = self.launched + 1;
        let number = self.launched;
        let mut progress = decimal(number);
        progress.append(" / ? processing ");
        progress.append(line.as_str());
        let (unit, action) = FetchUnit::launch(config, line);
        Some(Launch { number, progress, unit, action })
    }

    /// Notes that the input has ended.
    pub fn close(&mut self)
        ensures
            final(self)@ == old(self)@.step(RunEvent::EndOfInput),
    {
        proof {
            use_type_invariant(&*self);
        }
        self.closed = true;
    }

    /// Counts a unit that is done. Returns whether a unit was outstanding; where
    /// none was, nothing is counted.
    pub fn complete(&mut self, outcome: Outcome) -> (counted: bool)
        ensures
            final(self)@ == old(self)@.step(RunEvent::UnitDone(outcome)),
            counted == (old(self)@.outstanding() > 0),
    {
        proof {
            use_type_invariant(&*self);
        }
        if self.completed < self.launched {
            self.completed = self.completed + 1;
            if outcome.is_err() {
                self.failed = self.failed + 1;
            }
            true
        } else {
            false
        }
    }

    /// Whether the run is over: the input has ended and every unit is done.
    pub fn is_finished(&self) -> (finished: bool)
        ensures
            finished == self@.finished(),
    {
        self.closed && self.completed == self.launched
    }

    /// The summary of the run, once it is over: there is none before the input has
    /// ended and every unit has reported. No more units have failed than were
    /// launched.
    pub fn summary(&self) -> (summary: Option<Summary>)
        ensures
            self@.well_formed(),
            match summary {
                Some(counts) => self@.finished() && counts.reports(self@),
                None => !self@.finished(),
            },
    {
        proof {
            use_type_invariant(self);
        }
        if self.is_finished() {
            Some(
                Summary {
                    total: self.launched,
                    succeeded: self.launched - self.failed,
                    failed: self.failed,
                },
            )
        } else {
            None
        }
    }
}

impl Summary {
    /// The closing line of the run.
    pub fn message(&self, config: &Config) -> (text: String)
        ensures
            text@ == summary_text(*self, config@),
    {
        let mut text = decimal(self.succeeded);
        text.append(" / ");
        text.append(decimal(self.total).as_str());
        text.append(" URLs successfully requested!");
        if !config.stdout {
            text.append("\nResponses saved in ");
            text.append(config.directory.as_str());
            text.append(" directory");
        }
        text
    }
}

} // verus!
