//! The counts of a run and what changes them: lines that are read, the end of the
//! input, and units that report. The laws at the end say what the counts are
//! after any series of such events.

use crate::outcome::{FetchError, Outcome};
use vstd::multiset::Multiset;
use vstd::prelude::*;
use vstd::seq_lib::to_multiset_build;

verus! {

/// What can happen to a run.
pub enum RunEvent {
    /// A line was read from the input.
    Line,
    /// The input ended.
    EndOfInput,
    /// A unit reported its outcome.
    UnitDone(Outcome),
}

impl RunEvent {
    /// A unit reports a failure.
    pub open spec fn is_failure(self) -> bool {
        self matches RunEvent::UnitDone(Err(_))
    }
}

/// The counts of a run.
pub struct Tally {
    /// Units launched: one for each line read.
    pub launched: nat,
    /// Units that have reported their outcome.
    pub completed: nat,
    /// Units that have reported a failure.
    pub failed: nat,
    /// Whether the input has ended.
    pub closed: bool,
}

impl Tally {
    /// The counts at the start of a run.
    pub open spec fn start() -> Tally {
        Tally { launched: 0, completed: 0, failed: 0, closed: false }
    }

    /// No more units have failed than are done, and no more are done than were
    /// launched.
    pub open spec fn well_formed(self) -> bool {
        self.failed <= self.completed && self.completed <= self.launched
    }

    /// Units that were launched and are not done yet.
    pub open spec fn outstanding(self) -> nat {
        (self.launched - self.completed) as nat
    }

    /// The input has ended and every unit that was launched is done.
    pub open spec fn finished(self) -> bool {
        self.closed && self.completed == self.launched
    }

    /// The counts after a line was read: one more unit is launched, unless the
    /// input has ended.
    pub open spec fn line(self) -> Tally {
        if self.closed {
            self
        } else {
            Tally { launched: self.launched + 1, ..self }
        }
    }

    /// The counts after the input ended.
    pub open spec fn end_of_input(self) -> Tally {
        Tally { closed: true, ..self }
    }

    /// The counts after a unit reported `outcome`: one more is done, and one more
    /// has failed if it reports an error. Where no unit is outstanding nothing
    /// changes.
    pub open spec fn unit_done(self, outcome: Outcome) -> Tally {
        if self.completed < self.launched {
            Tally {
                completed: self.completed + 1,
                failed: if outcome is Err {
                    self.failed + 1
                } else {
                    self.failed
                },
                ..self
            }
        } else {
            self
        }
    }

    /// The counts after `event`.
    pub open spec fn step(self, event: RunEvent) -> Tally {
        match event {
            RunEvent::Line => self.line(),
            RunEvent::EndOfInput => self.end_of_input(),
            RunEvent::UnitDone(outcome) => self.unit_done(outcome),
        }
    }

    /// Whether `event` can happen now: a line is read only before the input has
    /// ended, and a unit reports only while one is outstanding.
    pub open spec fn takes(self, event: RunEvent) -> bool {
        match event {
            RunEvent::Line => !self.closed,
            RunEvent::EndOfInput => true,
            RunEvent::UnitDone(_) => self.completed < self.launched,
        }
    }

    /// The counts after a series of events.
    pub open spec fn run(self, events: Seq<RunEvent>) -> Tally
        decreases events.len(),
    {
        if events.len() == 0 {
            self
        } else {
            self.run(events.drop_last()).step(events.last())
        }
    }

    /// Every event of the series can happen when its turn comes: each unit reports
    /// once, after its launch, and no line follows the end of the input.
    pub open spec fn orderly(self, events: Seq<RunEvent>) -> bool
        decreases events.len(),
    {
        events.len() == 0 || {
            &&& self.orderly(events.drop_last())
            &&& self.run(events.drop_last()).takes(events.last())
        }
    }
}

/// How many lines are read in a series of events.
pub open spec fn lines_in(events: Seq<RunEvent>) -> nat {
    events.to_multiset().count(RunEvent::Line)
}

/// How many units report a failure in a series of events.
pub open spec fn failures_in(events: Seq<RunEvent>) -> nat {
    let happened = events.to_multiset();
    happened.count(RunEvent::UnitDone(Err(FetchError::InvalidMethod))) + happened.count(
        RunEvent::UnitDone(Err(FetchError::RequestFailed)),
    ) + happened.count(RunEvent::UnitDone(Err(FetchError::BodyDecodeFailed))) + happened.count(
        RunEvent::UnitDone(Err(FetchError::IOError)),
    )
}

/// How many units report in a series of events.
pub open spec fn reports_in(events: Seq<RunEvent>) -> nat {
    events.to_multiset().count(RunEvent::UnitDone(Ok(()))) + failures_in(events)
}

/// Whether the input ends in a series of events.
pub open spec fn input_ends_in(events: Seq<RunEvent>) -> bool {
    events.to_multiset().count(RunEvent::EndOfInput) > 0
}

/// What one more event adds to the counts of a series.
proof fn lemma_counts_of_longer(events: Seq<RunEvent>, event: RunEvent)
    ensures
        lines_in(events.push(event)) == lines_in(events) + if event is Line {
            1nat
        } else {
            0nat
        },
        reports_in(events.push(event)) == reports_in(events) + if event is UnitDone {
            1nat
        } else {
            0nat
        },
        failures_in(events.push(event)) == failures_in(events) + if event.is_failure() {
            1nat
        } else {
            0nat
        },
        input_ends_in(events.push(event)) == (input_ends_in(events) || event is EndOfInput),
{
    to_multiset_build(events, event);
    match event {
        RunEvent::UnitDone(Ok(unit)) => {
            assert(unit == ());
        },
        RunEvent::UnitDone(Err(error)) => {
            assert(error == FetchError::InvalidMethod || error == FetchError::RequestFailed || error
                == FetchError::BodyDecodeFailed || error == FetchError::IOError);
        },
        _ => {},
    }
}

/// The counts of a run say how many events of each kind have happened, and no
/// more: one unit is launched for each line that was read, one is done for each
/// report, and one has failed for each failure that was reported.
pub proof fn law_tally_counts_events(tally: Tally, events: Seq<RunEvent>)
    requires
        tally.orderly(events),
    ensures
        tally.run(events) == (Tally {
            launched: tally.launched + lines_in(events),
            completed: tally.completed + reports_in(events),
            failed: tally.failed + failures_in(events),
            closed: tally.closed || input_ends_in(events),
        }),
    decreases events.len(),
{
    if events.len() == 0 {
        assert(events.to_multiset() =~= Multiset::<RunEvent>::empty()) by {
            events.to_multiset_ensures();
        }
    } else {
        law_tally_counts_events(tally, events.drop_last());
        lemma_counts_of_longer(events.drop_last(), events.last());
        assert(events.drop_last().push(events.last()) =~= events);
    }
}

/// The order of events does not matter: two series that hold the same events, each
/// in an order in which they can happen, end in the same counts. So units may
/// report in any order, and between any lines.
pub proof fn law_order_does_not_matter(tally: Tally, first: Seq<RunEvent>, second: Seq<RunEvent>)
    requires
        tally.orderly(first),
        tally.orderly(second),
        first.to_multiset() == second.to_multiset(),
    ensures
        tally.run(first) == tally.run(second),
{
    law_tally_counts_events(tally, first);
    law_tally_counts_events(tally, second);
}

/// One unit for each line: in a run from its start, as many units are launched
/// as lines were read. Whatever happens, there is never a unit without its line.
pub proof fn law_one_unit_for_each_line(events: Seq<RunEvent>)
    ensures
        Tally::start().run(events).launched <= lines_in(events),
        Tally::start().orderly(events) ==> Tally::start().run(events).launched == lines_in(events),
    decreases events.len(),
{
    if Tally::start().orderly(events) {
        law_tally_counts_events(Tally::start(), events);
    }
    if events.len() > 0 {
        law_one_unit_for_each_line(events.drop_last());
        lemma_counts_of_longer(events.drop_last(), events.last());
        assert(events.drop_last().push(events.last()) =~= events);
    }
}

/// The barrier: a run from its start is finished only when the input has ended
/// and as many units have reported as lines were read. Until then it is not
/// finished, whatever the order of the reports.
pub proof fn law_finished_when_all_reported(events: Seq<RunEvent>)
    requires
        Tally::start().orderly(events),
    ensures
        Tally::start().run(events).finished() <==> input_ends_in(events) && reports_in(events)
            == lines_in(events),
{
    law_tally_counts_events(Tally::start(), events);
}

/// No more units have failed than are done, and no more are done than were
/// launched: this holds at the start of a run and after every series of events.
pub proof fn law_counts_stay_ordered(tally: Tally, events: Seq<RunEvent>)
    requires
        tally.well_formed(),
    ensures
        tally.run(events).well_formed(),
    decreases events.len(),
{
    if events.len() > 0 {
        law_counts_stay_ordered(tally, events.drop_last());
    }
}

} // verus!
