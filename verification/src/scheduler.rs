//! The hourly round: read the settings, ping, say so, sleep, and again.
//!
//! The round is a state machine. Whoever drives it does what an [`Action`]
//! asks (reads the file, sends the request, sleeps) and hands back what came
//! of it as an [`Event`]; [`step`] decides what follows.

use crate::config::{fatal, read_line, read_token, token_of};
use crate::config::{ConfigError, SettingsFile, SettingsView};
use crate::ping::{header_text, ping_line, ping_record, ping_request, request_for};
use crate::ping::{PingOutcome, PingRequest, RequestView};
use crate::record::{lines_of, Level, Line, LogRecord};
use vstd::prelude::*;

verus! {

/// The time between two rounds, in seconds.
pub const ONE_HOUR: u64 = 3600;

/// The version that is announced at the start.
pub const VERSIONSTRING: &'static str = "1.0.0";

/// What the round is waiting for.
#[derive(Clone, Debug, PartialEq, Eq)]
pub enum State {
    /// For the settings to be read.
    Reading,
    /// For the answer to the ping that carries this token.
    Pinging(String),
    /// For the hour to pass.
    Sleeping,
    /// For nothing: the round has ended.
    Stopped,
}

/// A state as mathematics.
pub enum StateView {
    Reading,
    Pinging(Seq<char>),
    Sleeping,
    Stopped,
}

impl View for State {
    type V = StateView;

    open spec fn view(&self) -> StateView {
        match self {
            State::Reading => StateView::Reading,
            State::Pinging(token) => StateView::Pinging(token@),
            State::Sleeping => StateView::Sleeping,
            State::Stopped => StateView::Stopped,
        }
    }
}

/// What came of the last action.
#[derive(Clone, Debug, PartialEq, Eq)]
pub enum Event {
    /// The settings were looked for, and this was found.
    Settings(SettingsFile),
    /// The ping was sent, and ended so.
    Reply(PingOutcome),
    /// The sleep is over.
    Woke,
}

/// An event as mathematics.
pub enum EventView {
    Settings(SettingsView),
    Reply(PingOutcome),
    Woke,
}

impl View for Event {
    type V = EventView;

    open spec fn view(&self) -> EventView {
        match self {
            Event::Settings(file) => EventView::Settings(file@),
            Event::Reply(outcome) => EventView::Reply(*outcome),
            Event::Woke => EventView::Woke,
        }
    }
}

/// What is to be done next.
#[derive(Clone, Debug, PartialEq, Eq)]
pub enum Action {
    /// Look for the settings.
    Read,
    /// Send this request, once.
    Send(PingRequest),
    /// Sleep for so many seconds.
    Sleep(u64),
    /// End the process over this error.
    Abort(ConfigError),
    /// Nothing: the event was not waited for.
    Ignore,
}

/// An action as mathematics.
pub enum ActionView {
    Read,
    Send(RequestView),
    Sleep(u64),
    Abort(ConfigError),
    Ignore,
}

impl View for Action {
    type V = ActionView;

    open spec fn view(&self) -> ActionView {
        match self {
            Action::Read => ActionView::Read,
            Action::Send(request) => ActionView::Send(request@),
            Action::Sleep(seconds) => ActionView::Sleep(*seconds),
            Action::Abort(e) => ActionView::Abort(*e),
            Action::Ignore => ActionView::Ignore,
        }
    }
}

/// One decision: the state that follows, the records to write, in order,
/// and then the action to take.
#[derive(Clone, Debug, PartialEq, Eq)]
pub struct Step {
    pub state: State,
    pub records: Vec<LogRecord>,
    pub action: Action,
}

/// A decision as mathematics.
pub struct StepView {
    pub state: StateView,
    pub lines: Seq<Line>,
    pub action: ActionView,
}

impl View for Step {
    type V = StepView;

    open spec fn view(&self) -> StepView {
        StepView { state: self.state@, lines: lines_of(self.records@), action: self.action@ }
    }
}

/// The line that announces the start.
pub open spec fn start_line() -> Line {
    Line { level: Level::Info, text: "Starting splatnet_ping, Version "@ + VERSIONSTRING@ }
}

/// The line that says a round goes without a ping.
pub open spec fn skip_line() -> Line {
    Line {
        level: Level::Warn,
        text: "The settings file could not be accessed due to an IO error."@,
    }
}

/// The line that announces the sleep.
pub open spec fn sleep_line() -> Line {
    Line {
        level: Level::Info,
        text: "Initiated sleep, next iteration to be performed in one hour."@,
    }
}

/// The first decision: announce the start and look for the settings.
pub open spec fn first() -> StepView {
    StepView { state: StateView::Reading, lines: seq![start_line()], action: ActionView::Read }
}

/// What follows a look for the settings.
///
/// With a token that a header can carry, the ping is sent. With one that no
/// header can carry, the ping counts as failed. Without a token the round
/// goes without a ping, unless the error is fatal: then the round ends.
pub open spec fn after_settings(file: SettingsView) -> StepView {
    let outcome = token_of(file);
    match outcome {
        Ok(token) => if header_text(token) {
            StepView {
                state: StateView::Pinging(token),
                lines: seq![read_line(outcome)],
                action: ActionView::Send(request_for(token)),
            }
        } else {
            StepView {
                state: StateView::Sleeping,
                lines: seq![
                    read_line(outcome),
                    ping_line(token, PingOutcome::TransportFailure),
                    sleep_line(),
                ],
                action: ActionView::Sleep(ONE_HOUR),
            }
        },
        Err(e) => if fatal(e) {
            StepView {
                state: StateView::Stopped,
                lines: seq![read_line(outcome)],
                action: ActionView::Abort(e),
            }
        } else {
            StepView {
                state: StateView::Sleeping,
                lines: seq![read_line(outcome), skip_line(), sleep_line()],
                action: ActionView::Sleep(ONE_HOUR),
            }
        },
    }
}

/// What follows a ping: whatever came of it, the sleep.
pub open spec fn after_reply(token: Seq<char>, outcome: PingOutcome) -> StepView {
    StepView {
        state: StateView::Sleeping,
        lines: seq![ping_line(token, outcome), sleep_line()],
        action: ActionView::Sleep(ONE_HOUR),
    }
}

/// What follows an event in a state. An event that the state does not wait
/// for changes nothing and writes nothing.
pub open spec fn next(state: StateView, event: EventView) -> StepView {
    match (state, event) {
        (StateView::Reading, EventView::Settings(file)) => after_settings(file),
        (StateView::Pinging(token), EventView::Reply(outcome)) => after_reply(token, outcome),
        (StateView::Sleeping, EventView::Woke) => StepView {
            state: StateView::Reading,
            lines: seq![],
            action: ActionView::Read,
        },
        _ => StepView { state, lines: seq![], action: ActionView::Ignore },
    }
}

fn sleep_record() -> (r: LogRecord)
    ensures
        r@ == sleep_line(),
{
    LogRecord::new(Level::Info, "Initiated sleep, next iteration to be performed in one hour.")
}

fn unmoved(state: State) -> (r: Step)
    ensures
        r@ == (StepView { state: state@, lines: seq![], action: ActionView::Ignore }),
{
    let records: Vec<LogRecord> = Vec::new();
    assert(lines_of(records@) =~= seq![]);
    Step { state, records, action: Action::Ignore }
}

fn settings_read(file: &SettingsFile) -> (r: Step)
    ensures
        r@ == after_settings(file@),
{
    let mut records: Vec<LogRecord> = Vec::new();
    let outcome = read_token(file, &mut records);
    match outcome {
        Ok(token) => match ping_request(token.as_str()) {
            Some(request) => {
                assert(lines_of(records@) =~= seq![read_line(token_of(file@))]);
                Step { state: State::Pinging(token), records, action: Action::Send(request) }
            },
            None => {
                let failure = ping_record(token.as_str(), PingOutcome::TransportFailure);
                records.push(failure);
                records.push(sleep_record());
                assert(lines_of(records@) =~= seq![
                    read_line(token_of(file@)),
                    ping_line(token@, PingOutcome::TransportFailure),
                    sleep_line(),
                ]);
                Step { state: State::Sleeping, records, action: Action::Sleep(ONE_HOUR) }
            },
        },
        Err(e) => {
            if e.is_fatal() {
                assert(lines_of(records@) =~= seq![read_line(token_of(file@))]);
                Step { state: State::Stopped, records, action: Action::Abort(e) }
            } else {
                let skipped = LogRecord::new(
                    Level::Warn,
                    "The settings file could not be accessed due to an IO error.",
                );
                records.push(skipped);
                records.push(sleep_record());
                assert(lines_of(records@) =~= seq![
                    read_line(token_of(file@)),
                    skip_line(),
                    sleep_line(),
                ]);
                Step { state: State::Sleeping, records, action: Action::Sleep(ONE_HOUR) }
            }
        },
    }
}

fn reply_received(token: &str, outcome: PingOutcome) -> (r: Step)
    ensures
        r@ == after_reply(token@, outcome),
{
    let mut records: Vec<LogRecord> = Vec::new();
    let report = ping_record(token, outcome);
    records.push(report);
    records.push(sleep_record());
    assert(lines_of(records@) =~= seq![ping_line(token@, outcome), sleep_line()]);
    Step { state: State::Sleeping, records, action: Action::Sleep(ONE_HOUR) }
}

/// Begins: announces the start and asks for the settings.
pub fn start() -> (r: Step)
    ensures
        r@ == first(),
{
    let mut message = String::from_str("Starting splatnet_ping, Version ");
    message.append(VERSIONSTRING);
    let mut records: Vec<LogRecord> = Vec::new();
    records.push(LogRecord { level: Level::Info, message });
    assert(lines_of(records@) =~= seq![start_line()]);
    Step { state: State::Reading, records, action: Action::Read }
}

/// Decides what follows `event` in `state`.
pub fn step(state: State, event: Event) -> (r: Step)
    ensures
        r@ == next(state@, event@),
{
    match state {
        State::Reading => match event {
            Event::Settings(file) => settings_read(&file),
            _ => unmoved(State::Reading),
        },
        State::Pinging(token) => match event {
            Event::Reply(outcome) => reply_received(token.as_str(), outcome),
            _ => unmoved(State::Pinging(token)),
        },
        State::Sleeping => match event {
            Event::Woke => {
                let records: Vec<LogRecord> = Vec::new();
                assert(lines_of(records@) =~= seq![]);
                Step { state: State::Reading, records, action: Action::Read }
            },
            _ => unmoved(State::Sleeping),
        },
        State::Stopped => unmoved(State::Stopped),
    }
}

/// A round with a token pings once. Where the settings hold a token that a
/// header can carry, the request with that token is sent; whatever comes of
/// it, two lines are written, the second of them the sleep notice; the sleep
/// lasts an hour; and only then are the settings looked for again.
pub proof fn lemma_round_pings_once(file: SettingsView, token: Seq<char>, outcome: PingOutcome)
    requires
        token_of(file) == Ok::<Seq<char>, ConfigError>(token),
        header_text(token),
    ensures
        ({
            let sent = next(StateView::Reading, EventView::Settings(file));
            let slept = next(sent.state, EventView::Reply(outcome));
            let woken = next(slept.state, EventView::Woke);
            &&& sent.action == ActionView::Send(request_for(token))
            &&& sent.lines == seq![read_line(Ok(token))]
            &&& slept.action == ActionView::Sleep(ONE_HOUR)
            &&& slept.lines == seq![ping_line(token, outcome), sleep_line()]
            &&& woken.action == ActionView::Read
            &&& woken.lines == Seq::<Line>::empty()
            &&& woken.state == StateView::Reading
        }),
{
}

/// A round without a token does not ping. Where reading the settings fails
/// and the error is not fatal, the round goes straight to an hour's sleep,
/// after the cause, the skip notice and the sleep notice.
pub proof fn lemma_round_without_token(file: SettingsView, e: ConfigError)
    requires
        token_of(file) == Err::<Seq<char>, ConfigError>(e),
        !fatal(e),
    ensures
        ({
            let skipped = next(StateView::Reading, EventView::Settings(file));
            &&& skipped.action == ActionView::Sleep(ONE_HOUR)
            &&& skipped.state == StateView::Sleeping
            &&& skipped.lines == seq![read_line(Err(e)), skip_line(), sleep_line()]
        }),
{
}

/// Nothing but a missing settings file ends the round: an [`Action::Abort`]
/// is decided exactly where the settings were looked for and nothing was
/// there. No answer to a ping, and no lack of one, leads to it.
pub proof fn lemma_abort_only_when_missing(state: StateView, event: EventView)
    ensures
        next(state, event).action is Abort <==> state == StateView::Reading && event
            == EventView::Settings(SettingsView::Missing),
        next(state, event).action is Abort ==> next(state, event).action == ActionView::Abort(
            ConfigError::ConfigMissing,
        ) && next(state, event).state == StateView::Stopped,
{
}

/// A request is sent only on reading a token, and is then waited for: an
/// [`Action::Send`] is decided only in [`State::Reading`], it carries the
/// token that was read, and the state that follows is [`State::Pinging`]
/// with that token, in which no event leads to another request.
pub proof fn lemma_send_only_on_reading(state: StateView, event: EventView, later: EventView)
    requires
        next(state, event).action is Send,
    ensures
        state == StateView::Reading,
        event is Settings,
        token_of(event->Settings_0) is Ok,
        next(state, event).action == ActionView::Send(
            request_for(token_of(event->Settings_0)->Ok_0),
        ),
        next(state, event).state == StateView::Pinging(token_of(event->Settings_0)->Ok_0),
        !(next(next(state, event).state, later).action is Send),
{
}

/// Once ended, the round stays ended: in [`State::Stopped`] every event is
/// ignored.
pub proof fn lemma_stopped_stays(event: EventView)
    ensures
        next(StateView::Stopped, event) == (StepView {
            state: StateView::Stopped,
            lines: seq![],
            action: ActionView::Ignore,
        }),
{
}

} // verus!
