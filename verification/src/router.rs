//! The decisions of the command handler: which collaborator to ask next and
//! what to answer, one step per outcome. The caller performs each action and
//! hands back what came of it.

use crate::decimal::{decimal_int, push_signed_decimal};
use vstd::prelude::*;

verus! {

/// A command of the bot.
#[derive(Clone, Copy, Debug, PartialEq, Eq)]
pub enum Command {
    Start,
    Done,
    Stats,
    AnnualStats,
    HourlyStats,
    Leaderboard,
    Delete,
}

/// A text that the handler answers with.
#[derive(Clone, Copy, Debug, PartialEq, Eq)]
pub enum Reply {
    /// The list of the commands.
    Help,
    /// An event was recorded.
    Recorded,
    /// The user's number of events.
    Score(i64),
    /// The store failed.
    DatabaseError,
    /// No chart could be made.
    ChartError,
    /// The user's data is gone.
    Deleted,
}

/// What the caller is to do next.
#[derive(Clone, Copy, Debug, PartialEq, Eq)]
pub enum Action {
    /// Find or create the user with this external identifier.
    UpsertUser { external_id: i64 },
    /// Record one event.
    InsertEvent { user_id: i64, timestamp: i64 },
    /// Count the user's events.
    CountEvents { user_id: i64 },
    /// Fetch the timestamps of the user's events.
    FetchTimestamps { user_id: i64 },
    /// Make the chart of the current year by month from the timestamps.
    MakeAnnualChart,
    /// Make the chart by hour of the day from the timestamps.
    MakeHourlyChart,
    /// Fetch the leaderboard rows.
    FetchTopUsers,
    /// Remove the user's events and the user.
    DeleteUser { user_id: i64 },
    /// Send the chart that was made.
    SendPhoto,
    /// Send the text of the leaderboard that was fetched.
    SendLeaderboard,
    /// Send a text.
    Send(Reply),
    /// Nothing is left to do.
    Stop,
}

/// What came of the last action.
#[derive(Clone, Copy, Debug, PartialEq, Eq)]
pub enum Event {
    /// The user's internal identifier, or none where the store failed.
    UserId(Option<i64>),
    /// Whether the event was recorded.
    Stored(bool),
    /// The number of events, or none where the store failed.
    Count(Option<i64>),
    /// Whether the timestamps were fetched.
    Timestamps(bool),
    /// Whether the chart was made.
    Chart(bool),
    /// Whether the leaderboard rows were fetched.
    TopUsers(bool),
    /// Whether the user's data was removed.
    Removed(bool),
}

/// Where the handling of one command stands.
#[derive(Clone, Copy, Debug, PartialEq, Eq)]
pub enum State {
    /// The user is being looked up.
    AwaitUser { command: Command, timestamp: i64 },
    AwaitStored,
    AwaitCount,
    AwaitTimestamps { annual: bool },
    AwaitChart,
    AwaitTopUsers,
    AwaitRemoved,
    /// The command is handled.
    Finished,
}

/// The first request for a command of a known user.
pub open spec fn first_request(command: Command, user_id: i64, timestamp: i64) -> (State, Action) {
    match command {
        Command::Start => (State::Finished, Action::Send(Reply::Help)),
        Command::Done => (State::AwaitStored, Action::InsertEvent { user_id, timestamp }),
        Command::Stats => (State::AwaitCount, Action::CountEvents { user_id }),
        Command::AnnualStats => (
            State::AwaitTimestamps { annual: true },
            Action::FetchTimestamps { user_id },
        ),
        Command::HourlyStats => (
            State::AwaitTimestamps { annual: false },
            Action::FetchTimestamps { user_id },
        ),
        Command::Leaderboard => (State::AwaitTopUsers, Action::FetchTopUsers),
        Command::Delete => (State::AwaitRemoved, Action::DeleteUser { user_id }),
    }
}

/// The handler's transition: every failure of the store ends the command
/// with `Reply::DatabaseError`, a failure to make a chart with
/// `Reply::ChartError`; an outcome that the state did not wait for ends it
/// with nothing sent.
pub open spec fn next(state: State, event: Event) -> (State, Action) {
    match (state, event) {
        (State::AwaitUser { command, timestamp }, Event::UserId(Some(user_id))) => first_request(
            command,
            user_id,
            timestamp,
        ),
        (State::AwaitUser { .. }, Event::UserId(None)) => (
            State::Finished,
            Action::Send(Reply::DatabaseError),
        ),
        (State::AwaitStored, Event::Stored(ok)) => (
            State::Finished,
            Action::Send(
                if ok {
                    Reply::Recorded
                } else {
                    Reply::DatabaseError
                },
            ),
        ),
        (State::AwaitCount, Event::Count(Some(count))) => (
            State::Finished,
            Action::Send(Reply::Score(count)),
        ),
        (State::AwaitCount, Event::Count(None)) => (
            State::Finished,
            Action::Send(Reply::DatabaseError),
        ),
        (State::AwaitTimestamps { annual }, Event::Timestamps(true)) => (
            State::AwaitChart,
            if annual {
                Action::MakeAnnualChart
            } else {
                Action::MakeHourlyChart
            },
        ),
        (State::AwaitTimestamps { .. }, Event::Timestamps(false)) => (
            State::Finished,
            Action::Send(Reply::DatabaseError),
        ),
        (State::AwaitChart, Event::Chart(true)) => (State::Finished, Action::SendPhoto),
        (State::AwaitChart, Event::Chart(false)) => (
            State::Finished,
            Action::Send(Reply::ChartError),
        ),
        (State::AwaitTopUsers, Event::TopUsers(true)) => (State::Finished, Action::SendLeaderboard),
        (State::AwaitTopUsers, Event::TopUsers(false)) => (
            State::Finished,
            Action::Send(Reply::DatabaseError),
        ),
        (State::AwaitRemoved, Event::Removed(ok)) => (
            State::Finished,
            Action::Send(
                if ok {
                    Reply::Deleted
                } else {
                    Reply::DatabaseError
                },
            ),
        ),
        _ => (State::Finished, Action::Stop),
    }
}

/// Takes up a command: a message without a sender is dropped, any other
/// starts with the lookup of its sender.
pub fn begin(command: Command, sender: Option<i64>, timestamp: i64) -> (r: (State, Action))
    ensures
        sender is None ==> r == (State::Finished, Action::Stop),
        sender matches Some(external_id) ==> r == (
            State::AwaitUser { command, timestamp },
            Action::UpsertUser { external_id },
        ),
{
    match sender {
        None => (State::Finished, Action::Stop),
        Some(external_id) => (
            State::AwaitUser { command, timestamp },
            Action::UpsertUser { external_id },
        ),
    }
}

/// The next state and action, given what came of the last action.
pub fn handle_command(state: State, event: Event) -> (r: (State, Action))
    ensures
        r == next(state, event),
{
    match state {
        State::AwaitUser { command, timestamp } => match event {
            Event::UserId(Some(user_id)) => match command {
                Command::Start => (State::Finished, Action::Send(Reply::Help)),
                Command::Done => (State::AwaitStored, Action::InsertEvent { user_id, timestamp }),
                Command::Stats => (State::AwaitCount, Action::CountEvents { user_id }),
                Command::AnnualStats => (
                    State::AwaitTimestamps { annual: true },
                    Action::FetchTimestamps { user_id },
                ),
                Command::HourlyStats => (
                    State::AwaitTimestamps { annual: false },
                    Action::FetchTimestamps { user_id },
                ),
                Command::Leaderboard => (State::AwaitTopUsers, Action::FetchTopUsers),
                Command::Delete => (State::AwaitRemoved, Action::DeleteUser { user_id }),
            },
            Event::UserId(None) => (State::Finished, Action::Send(Reply::DatabaseError)),
            _ => (State::Finished, Action::Stop),
        },
        State::AwaitStored => match event {
            Event::Stored(true) => (State::Finished, Action::Send(Reply::Recorded)),
            Event::Stored(false) => (State::Finished, Action::Send(Reply::DatabaseError)),
            _ => (State::Finished, Action::Stop),
        },
        State::AwaitCount => match event {
            Event::Count(Some(count)) => (State::Finished, Action::Send(Reply::Score(count))),
            Event::Count(None) => (State::Finished, Action::Send(Reply::DatabaseError)),
            _ => (State::Finished, Action::Stop),
        },
        State::AwaitTimestamps { annual } => match event {
            Event::Timestamps(true) => if annual {
                (State::AwaitChart, Action::MakeAnnualChart)
            } else {
                (State::AwaitChart, Action::MakeHourlyChart)
            },
            Event::Timestamps(false) => (State::Finished, Action::Send(Reply::DatabaseError)),
            _ => (State::Finished, Action::Stop),
        },
        State::AwaitChart => match event {
            Event::Chart(true) => (State::Finished, Action::SendPhoto),
            Event::Chart(false) => (State::Finished, Action::Send(Reply::ChartError)),
            _ => (State::Finished, Action::Stop),
        },
        State::AwaitTopUsers => match event {
            Event::TopUsers(true) => (State::Finished, Action::SendLeaderboard),
            Event::TopUsers(false) => (State::Finished, Action::Send(Reply::DatabaseError)),
            _ => (State::Finished, Action::Stop),
        },
        State::AwaitRemoved => match event {
            Event::Removed(true) => (State::Finished, Action::Send(Reply::Deleted)),
            Event::Removed(false) => (State::Finished, Action::Send(Reply::DatabaseError)),
            _ => (State::Finished, Action::Stop),
        },
        State::Finished => (State::Finished, Action::Stop),
    }
}

/// A command never takes more than three steps: after `begin` and three
/// outcomes it is finished, whatever the outcomes were.
pub proof fn lemma_handler_finishes(state: State, e1: Event, e2: Event, e3: Event)
    requires
        state is AwaitUser,
    ensures
        next(next(next(state, e1).0, e2).0, e3).0 == State::Finished,
{
}

/// The reply keyboard: three rows of commands, one button each.
pub fn main_keyboard() -> (rows: Vec<Vec<String>>)
    ensures
        rows@.len() == 3,
        rows@[0]@.len() == 1,
        rows@[0]@[0]@ == "/done"@,
        rows@[1]@.len() == 2,
        rows@[1]@[0]@ == "/stats"@,
        rows@[1]@[1]@ == "/leaderboard"@,
        rows@[2]@.len() == 2,
        rows@[2]@[0]@ == "/annualstats"@,
        rows@[2]@[1]@ == "/hourlystats"@,
{
    let mut first: Vec<String> = Vec::new();
    first.push("/done".to_owned());
    let mut second: Vec<String> = Vec::new();
    second.push("/stats".to_owned());
    second.push("/leaderboard".to_owned());
    let mut third: Vec<String> = Vec::new();
    third.push("/annualstats".to_owned());
    third.push("/hourlystats".to_owned());
    let mut rows: Vec<Vec<String>> = Vec::new();
    rows.push(first);
    rows.push(second);
    rows.push(third);
    rows
}

/// The text of a reply. The list of commands is the transport's to write,
/// so `Reply::Help` has no text here.
pub open spec fn reply_view(reply: Reply) -> Seq<char> {
    match reply {
        Reply::Help => Seq::empty(),
        Reply::Recorded => "\u{1F44D}"@,
        Reply::Score(count) => "Your score: "@ + decimal_int(count as int),
        Reply::DatabaseError => "Database error :("@,
        Reply::ChartError => "Error generating the chart :("@,
        Reply::Deleted => "All your data has been deleted"@,
    }
}

/// The text of a reply.
pub fn reply_text(reply: Reply) -> (text: String)
    ensures
        text@ == reply_view(reply),
{
    match reply {
        Reply::Help => String::new(),
        Reply::Recorded => "\u{1F44D}".to_owned(),
        Reply::Score(count) => {
            let mut text = "Your score: ".to_owned();
            push_signed_decimal(&mut text, count);
            text
        },
        Reply::DatabaseError => "Database error :(".to_owned(),
        Reply::ChartError => "Error generating the chart :(".to_owned(),
        Reply::Deleted => "All your data has been deleted".to_owned(),
    }
}

} // verus!
