//! One unit of work: the request for one URL, from its launch to its outcome.
//!
//! A unit performs no I/O. It tells its driver what to do next, as an [`Action`],
//! and the driver reports what came of it, as an [`Event`]. The laws at the end say
//! what holds of every series of events.

use crate::config::{Config, ConfigView};
use crate::digest::{content_hash, hash_body};
use crate::method::{is_method, valid_method};
use crate::naming::{content_name, hash_in_name, host_name, law_name_carries_hash, name_content};
use crate::outcome::{FetchError, Outcome};
use vstd::prelude::*;
use vstd::string::*;
use vstd::utf8::encode_utf8;

verus! {

/// Where a unit stands.
#[derive(Clone, Copy, Debug, PartialEq, Eq, Structural)]
pub enum Phase {
    /// The request is under way.
    AwaitingResponse,
    /// A response came that is not ignored; its body is being read.
    AwaitingBody,
    /// The body is being printed or saved.
    AwaitingOutput,
    /// The unit is done and counts as a success.
    Succeeded,
    /// The unit is done and counts as a failure.
    Failed(FetchError),
}

/// What the driver reports to a unit.
#[derive(Debug, PartialEq, Eq)]
pub enum Event {
    /// A response arrived, with this status code.
    Response { status: u16 },
    /// No response arrived, or the transfer broke off: a connection or transport
    /// error, or the timeout.
    RequestFailed,
    /// The whole body was read as text.
    Body { text: String },
    /// The body is no text.
    BodyDecodeFailed,
    /// The body was printed or saved.
    OutputDone,
    /// The directory or the file could not be written.
    OutputFailed,
}

/// An event as contracts see it.
pub enum EventView {
    Response { status: u16 },
    RequestFailed,
    Body { text: Seq<char> },
    BodyDecodeFailed,
    OutputDone,
    OutputFailed,
}

impl View for Event {
    type V = EventView;

    open spec fn view(&self) -> EventView {
        match self {
            Event::Response { status } => EventView::Response { status: *status },
            Event::RequestFailed => EventView::RequestFailed,
            Event::Body { text } => EventView::Body { text: text@ },
            Event::BodyDecodeFailed => EventView::BodyDecodeFailed,
            Event::OutputDone => EventView::OutputDone,
            Event::OutputFailed => EventView::OutputFailed,
        }
    }
}

/// What a unit asks its driver to do.
#[derive(Debug, PartialEq, Eq)]
pub enum Action {
    /// Send one request and give it `timeout_ms` milliseconds for the whole exchange.
    /// Report `Response` or `RequestFailed`.
    Request { method: String, url: String, timeout_ms: u64 },
    /// Read the whole body of the response as text. Report `Body`,
    /// `BodyDecodeFailed`, or `RequestFailed` where the transfer broke off.
    ReadBody,
    /// Write `text` to standard output as it is. Report `OutputDone`.
    Print { text: String },
    /// Make sure that `directory` exists, then write `contents` to the file
    /// `filename` in it, in place of what the file held. Report `OutputDone` or
    /// `OutputFailed`.
    Save { directory: String, filename: String, contents: String },
    /// Nothing is left to do: the unit ended with this outcome.
    Finish { outcome: Outcome },
}

/// An action as contracts see it.
pub enum ActionView {
    Request { method: Seq<char>, url: Seq<char>, timeout_ms: u64 },
    ReadBody,
    Print { text: Seq<char> },
    Save { directory: Seq<char>, filename: Seq<char>, contents: Seq<char> },
    Finish { outcome: Outcome },
}

impl View for Action {
    type V = ActionView;

    open spec fn view(&self) -> ActionView {
        match self {
            Action::Request { method, url, timeout_ms } => ActionView::Request {
                method: method@,
                url: url@,
                timeout_ms: *timeout_ms,
            },
            Action::ReadBody => ActionView::ReadBody,
            Action::Print { text } => ActionView::Print { text: text@ },
            Action::Save { directory, filename, contents } => ActionView::Save {
                directory: directory@,
                filename: filename@,
                contents: contents@,
            },
            Action::Finish { outcome } => ActionView::Finish { outcome: *outcome },
        }
    }
}

/// What is done with a body: it is printed with a line end after it, or saved
/// under its content name in the configured directory.
pub open spec fn output_for(config: ConfigView, url: Seq<char>, body: Seq<char>) -> ActionView {
    if config.stdout {
        ActionView::Print { text: body.push('\n') }
    } else {
        ActionView::Save {
            directory: config.directory,
            filename: content_name(url, content_hash(body)),
            contents: body,
        }
    }
}

/// How a unit starts: with the request, or, where the configured method is no
/// HTTP method, with its failure.
pub open spec fn opening(config: ConfigView, url: Seq<char>) -> (Phase, ActionView) {
    if is_method(encode_utf8(config.method)) {
        (
            Phase::AwaitingResponse,
            ActionView::Request { method: config.method, url, timeout_ms: config.timeout_ms },
        )
    } else {
        ending(Err(FetchError::InvalidMethod))
    }
}

/// The phase and the action that end a unit with `outcome`.
pub open spec fn ending(outcome: Outcome) -> (Phase, ActionView) {
    (
        match outcome {
            Ok(_) => Phase::Succeeded,
            Err(error) => Phase::Failed(error),
        },
        ActionView::Finish { outcome },
    )
}

/// How a unit goes on: the next phase and the action to take, for the events that
/// the phase waits for; `None` for every other event.
///
/// A response with an ignored status ends the unit as a success at once: its body
/// is not read, and nothing is printed or saved.
pub open spec fn next(
    config: ConfigView,
    url: Seq<char>,
    phase: Phase,
    event: EventView,
) -> Option<(Phase, ActionView)> {
    match (phase, event) {
        (Phase::AwaitingResponse, EventView::Response { status }) => {
            if config.ignore.contains(status) {
                Some(ending(Ok(())))
            } else {
                Some((Phase::AwaitingBody, ActionView::ReadBody))
            }
        },
        (Phase::AwaitingResponse, EventView::RequestFailed) => {
            Some(ending(Err(FetchError::RequestFailed)))
        },
        (Phase::AwaitingBody, EventView::Body { text }) => {
            Some((Phase::AwaitingOutput, output_for(config, url, text)))
        },
        (Phase::AwaitingBody, EventView::BodyDecodeFailed) => {
            Some(ending(Err(FetchError::BodyDecodeFailed)))
        },
        (Phase::AwaitingBody, EventView::RequestFailed) => {
            Some(ending(Err(FetchError::RequestFailed)))
        },
        (Phase::AwaitingOutput, EventView::OutputDone) => Some(ending(Ok(()))),
        (Phase::AwaitingOutput, EventView::OutputFailed) => {
            Some(ending(Err(FetchError::IOError)))
        },
        _ => None,
    }
}

/// The outcome of a unit in this phase, once it has one.
pub open spec fn outcome_of(phase: Phase) -> Option<Outcome> {
    match phase {
        Phase::Succeeded => Some(Ok(())),
        Phase::Failed(error) => Some(Err(error)),
        _ => None,
    }
}

/// The phase after a series of events, each taken in its turn. An event that the
/// unit is not waiting for is passed over.
pub open spec fn phase_after(
    config: ConfigView,
    url: Seq<char>,
    phase: Phase,
    events: Seq<EventView>,
) -> Phase
    decreases events.len(),
{
    if events.len() == 0 {
        phase
    } else {
        let then = match next(config, url, phase, events.first()) {
            Some((then, _)) => then,
            None => phase,
        };
        phase_after(config, url, then, events.drop_first())
    }
}

/// The actions that a series of events calls for, in their order.
pub open spec fn actions_after(
    config: ConfigView,
    url: Seq<char>,
    phase: Phase,
    events: Seq<EventView>,
) -> Seq<ActionView>
    decreases events.len(),
{
    if events.len() == 0 {
        Seq::empty()
    } else {
        let later = events.drop_first();
        match next(config, url, phase, events.first()) {
            Some((then, action)) => seq![action] + actions_after(config, url, then, later),
            None => actions_after(config, url, phase, later),
        }
    }
}

/// Decides what is done with a body that was read. Where it is saved, the hash
/// in the name of the file is the content hash of what the file will hold.
pub fn route_body(config: &Config, url: &str, body: String) -> (action: Action)
    ensures
        action@ == output_for(config@, url@, body@),
        action matches Action::Save { filename, contents, .. } ==> hash_in_name(filename@)
            == content_hash(contents@),
{
    if config.stdout {
        proof {
            reveal_strlit("\n");
        }
        let mut text = body;
        text.append("\n");
        assert(text@ =~= body@.push('\n'));
        Action::Print { text }
    } else {
        let hash = hash_body(body.as_str());
        let filename = name_content(url, hash.as_str());
        proof {
            law_name_carries_hash(host_name(url@), hash@);
        }
        Action::Save { directory: config.directory.clone(), filename, contents: body }
    }
}

/// A unit of work: the line it is for, and where it stands.
#[derive(Debug, PartialEq, Eq)]
pub struct FetchUnit {
    /// The line that was read, taken as the URL to request.
    pub url: String,
    /// Where the unit stands.
    pub phase: Phase,
}

impl FetchUnit {
    /// Starts the unit for `url`, which is taken as it was read: it need not be a
    /// URL. Returns the unit and its first action.
    pub fn launch(config: &Config, url: String) -> (started: (FetchUnit, Action))
        ensures
            started.0.url@ == url@,
            (started.0.phase, started.1@) == opening(config@, url@),
    {
        if valid_method(config.method.as_str()) {
            let action = Action::Request {
                method: config.method.clone(),
                url: url.clone(),
                timeout_ms: config.timeout_ms,
            };
            (FetchUnit { url, phase: Phase::AwaitingResponse }, action)
        } else {
            let error = FetchError::InvalidMethod;
            (FetchUnit { url, phase: Phase::Failed(error) }, Action::Finish { outcome: Err(error) })
        }
    }

    /// Takes what the driver reports and says what to do next. An event that the
    /// unit is not waiting for changes nothing and gets `None`; a unit that is
    /// done waits for none. Where a body is to be saved, the hash in the name of
    /// the file is the content hash of what the file will hold.
    pub fn handle(&mut self, config: &Config, event: Event) -> (action: Option<Action>)
        ensures
            final(self).url == old(self).url,
            match next(config@, old(self).url@, old(self).phase, event@) {
                Some((phase, asked)) => {
                    &&& final(self).phase == phase
                    &&& action.is_some()
                    &&& action.unwrap()@ == asked
                },
                None => final(self).phase == old(self).phase && action.is_none(),
            },
            action matches Some(Action::Save { filename, contents, .. }) ==> hash_in_name(filename@)
                == content_hash(contents@),
    {
        match (self.phase, event) {
            (Phase::AwaitingResponse, Event::Response { status }) => {
                if config.ignores(status) {
                    Some(self.end(Ok(())))
                } else {
                    self.phase = Phase::AwaitingBody;
                    Some(Action::ReadBody)
                }
            },
            (Phase::AwaitingResponse, Event::RequestFailed) => {
                Some(self.end(Err(FetchError::RequestFailed)))
            },
            (Phase::AwaitingBody, Event::Body { text }) => {
                self.phase = Phase::AwaitingOutput;
                Some(route_body(config, self.url.as_str(), text))
            },
            (Phase::AwaitingBody, Event::BodyDecodeFailed) => {
                Some(self.end(Err(FetchError::BodyDecodeFailed)))
            },
            (Phase::AwaitingBody, Event::RequestFailed) => {
                Some(self.end(Err(FetchError::RequestFailed)))
            },
            (Phase::AwaitingOutput, Event::OutputDone) => Some(self.end(Ok(()))),
            (Phase::AwaitingOutput, Event::OutputFailed) => {
                Some(self.end(Err(FetchError::IOError)))
            },
            _ => None,
        }
    }

    /// Ends the unit with `outcome`.
    fn end(&mut self, outcome: Outcome) -> (action: Action)
        ensures
            final(self).url == old(self).url,
            (final(self).phase, action@) == ending(outcome),
    {
        self.phase = match outcome {
            Ok(_) => Phase::Succeeded,
            Err(error) => Phase::Failed(error),
        };
        Action::Finish { outcome }
    }

    /// The outcome of the unit, once it is done.
    pub fn outcome(&self) -> (outcome: Option<Outcome>)
        ensures
            outcome == outcome_of(self.phase),
    {
        match self.phase {
            Phase::Succeeded => Some(Ok(())),
            Phase::Failed(error) => Some(Err(error)),
            _ => None,
        }
    }
}

/// A unit that is done stays as it is: whatever is reported to it, its phase does
/// not change and it asks for nothing.
pub proof fn law_done_is_final(
    config: ConfigView,
    url: Seq<char>,
    phase: Phase,
    events: Seq<EventView>,
)
    requires
        outcome_of(phase) is Some,
    ensures
        phase_after(config, url, phase, events) == phase,
        actions_after(config, url, phase, events) == Seq::<ActionView>::empty(),
    decreases events.len(),
{
    if events.len() > 0 {
        law_done_is_final(config, url, phase, events.drop_first());
    }
}

/// A response with an ignored status ends the unit as a success, and the action
/// that says so is the only one that ever follows: no body is read, nothing is
/// printed and nothing is saved, whatever is reported later.
pub proof fn law_ignored_response_is_silent_success(
    config: ConfigView,
    url: Seq<char>,
    status: u16,
    later: Seq<EventView>,
)
    requires
        config.ignore.contains(status),
    ensures
        ({
            let events = seq![EventView::Response { status }] + later;
            &&& phase_after(config, url, Phase::AwaitingResponse, events) == Phase::Succeeded
            &&& actions_after(config, url, Phase::AwaitingResponse, events)
                == seq![ActionView::Finish { outcome: Ok(()) }]
        }),
{
    let events = seq![EventView::Response { status }] + later;
    assert(events.drop_first() =~= later);
    law_done_is_final(config, url, Phase::Succeeded, later);
}

/// A request that fails, be it that the timeout ran out, ends the unit as a
/// failure of the request: nothing is read, printed or saved, whatever is reported
/// later. The request is given the configured time, unchanged.
pub proof fn law_failed_request_fails_the_unit(
    config: ConfigView,
    url: Seq<char>,
    later: Seq<EventView>,
)
    requires
        is_method(encode_utf8(config.method)),
    ensures
        ({
            let events = seq![EventView::RequestFailed] + later;
            let failure = FetchError::RequestFailed;
            &&& opening(config, url) == (
                Phase::AwaitingResponse,
                ActionView::Request { method: config.method, url, timeout_ms: config.timeout_ms },
            )
            &&& phase_after(config, url, Phase::AwaitingResponse, events) == Phase::Failed(failure)
            &&& actions_after(config, url, Phase::AwaitingResponse, events)
                == seq![ActionView::Finish { outcome: Err(failure) }]
        }),
{
    let events = seq![EventView::RequestFailed] + later;
    assert(events.drop_first() =~= later);
    law_done_is_final(config, url, Phase::Failed(FetchError::RequestFailed), later);
}

/// One attempt: after its launch a unit never asks for a request again, whatever
/// is reported to it and in whatever phase it stands.
pub proof fn law_no_second_request(
    config: ConfigView,
    url: Seq<char>,
    phase: Phase,
    events: Seq<EventView>,
)
    ensures
        forall|i: int|
            #![trigger actions_after(config, url, phase, events)[i]]
            0 <= i < actions_after(config, url, phase, events).len() ==> !(actions_after(
                config,
                url,
                phase,
                events,
            )[i] is Request),
    decreases events.len(),
{
    if events.len() > 0 {
        match next(config, url, phase, events.first()) {
            Some((then, _)) => law_no_second_request(config, url, then, events.drop_first()),
            None => law_no_second_request(config, url, phase, events.drop_first()),
        }
    }
}

} // verus!
