use done_bot::router::{
    begin, handle_command, main_keyboard, reply_text, Action, Command, Event, Reply, State,
};

#[test]
fn message_without_sender_is_dropped() {
    assert_eq!(begin(Command::Done, None, 5), (State::Finished, Action::Stop));
}

#[test]
fn command_starts_with_the_user() {
    assert_eq!(
        begin(Command::Stats, Some(99), 5),
        (
            State::AwaitUser { command: Command::Stats, timestamp: 5 },
            Action::UpsertUser { external_id: 99 }
        )
    );
}

#[test]
fn failed_user_lookup_is_a_database_error() {
    let (state, _) = begin(Command::Done, Some(1), 5);
    assert_eq!(
        handle_command(state, Event::UserId(None)),
        (State::Finished, Action::Send(Reply::DatabaseError))
    );
}

#[test]
fn start_sends_help() {
    let (state, _) = begin(Command::Start, Some(1), 5);
    assert_eq!(
        handle_command(state, Event::UserId(Some(3))),
        (State::Finished, Action::Send(Reply::Help))
    );
}

#[test]
fn done_records_the_message_time() {
    let (state, _) = begin(Command::Done, Some(1), 1234);
    let (state, action) = handle_command(state, Event::UserId(Some(3)));
    assert_eq!(action, Action::InsertEvent { user_id: 3, timestamp: 1234 });
    assert_eq!(
        handle_command(state, Event::Stored(true)),
        (State::Finished, Action::Send(Reply::Recorded))
    );
    assert_eq!(
        handle_command(state, Event::Stored(false)),
        (State::Finished, Action::Send(Reply::DatabaseError))
    );
}

#[test]
fn stats_sends_the_score() {
    let (state, _) = begin(Command::Stats, Some(1), 0);
    let (state, action) = handle_command(state, Event::UserId(Some(8)));
    assert_eq!(action, Action::CountEvents { user_id: 8 });
    assert_eq!(
        handle_command(state, Event::Count(Some(17))),
        (State::Finished, Action::Send(Reply::Score(17)))
    );
    assert_eq!(
        handle_command(state, Event::Count(None)),
        (State::Finished, Action::Send(Reply::DatabaseError))
    );
}

#[test]
fn annual_stats_fetch_then_chart_then_photo() {
    let (state, _) = begin(Command::AnnualStats, Some(1), 0);
    let (state, action) = handle_command(state, Event::UserId(Some(8)));
    assert_eq!(action, Action::FetchTimestamps { user_id: 8 });
    assert_eq!(
        handle_command(state, Event::Timestamps(false)),
        (State::Finished, Action::Send(Reply::DatabaseError))
    );
    let (state, action) = handle_command(state, Event::Timestamps(true));
    assert_eq!(action, Action::MakeAnnualChart);
    assert_eq!(handle_command(state, Event::Chart(true)), (State::Finished, Action::SendPhoto));
    assert_eq!(
        handle_command(state, Event::Chart(false)),
        (State::Finished, Action::Send(Reply::ChartError))
    );
}

#[test]
fn hourly_stats_make_the_hourly_chart() {
    let (state, _) = begin(Command::HourlyStats, Some(1), 0);
    let (state, _) = handle_command(state, Event::UserId(Some(8)));
    assert_eq!(
        handle_command(state, Event::Timestamps(true)),
        (State::AwaitChart, Action::MakeHourlyChart)
    );
}

#[test]
fn leaderboard_fetches_then_sends() {
    let (state, _) = begin(Command::Leaderboard, Some(1), 0);
    let (state, action) = handle_command(state, Event::UserId(Some(8)));
    assert_eq!(action, Action::FetchTopUsers);
    assert_eq!(
        handle_command(state, Event::TopUsers(true)),
        (State::Finished, Action::SendLeaderboard)
    );
    assert_eq!(
        handle_command(state, Event::TopUsers(false)),
        (State::Finished, Action::Send(Reply::DatabaseError))
    );
}

#[test]
fn delete_removes_then_confirms() {
    let (state, _) = begin(Command::Delete, Some(1), 0);
    let (state, action) = handle_command(state, Event::UserId(Some(8)));
    assert_eq!(action, Action::DeleteUser { user_id: 8 });
    assert_eq!(
        handle_command(state, Event::Removed(true)),
        (State::Finished, Action::Send(Reply::Deleted))
    );
    assert_eq!(
        handle_command(state, Event::Removed(false)),
        (State::Finished, Action::Send(Reply::DatabaseError))
    );
}

#[test]
fn unexpected_outcome_ends_the_command() {
    assert_eq!(
        handle_command(State::AwaitCount, Event::Stored(true)),
        (State::Finished, Action::Stop)
    );
    assert_eq!(
        handle_command(State::Finished, Event::Count(Some(1))),
        (State::Finished, Action::Stop)
    );
}

#[test]
fn reply_texts() {
    assert_eq!(reply_text(Reply::Help), "");
    assert_eq!(reply_text(Reply::Recorded), "\u{1F44D}");
    assert_eq!(reply_text(Reply::Score(12)), "Your score: 12");
    assert_eq!(reply_text(Reply::Score(0)), "Your score: 0");
    assert_eq!(reply_text(Reply::DatabaseError), "Database error :(");
    assert_eq!(reply_text(Reply::ChartError), "Error generating the chart :(");
    assert_eq!(reply_text(Reply::Deleted), "All your data has been deleted");
}

#[test]
fn keyboard_rows() {
    assert_eq!(
        main_keyboard(),
        vec![
            vec![String::from("/done")],
            vec![String::from("/stats"), String::from("/leaderboard")],
            vec![String::from("/annualstats"), String::from("/hourlystats")],
        ]
    );
}
