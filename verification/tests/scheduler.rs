use splatnet_ping::config::{ConfigError, SettingsFile};
use splatnet_ping::ping::{PingOutcome, PingRequest};
use splatnet_ping::record::{Level, LogRecord};
use splatnet_ping::scheduler::{start, step, Action, Event, State, Step, ONE_HOUR, VERSIONSTRING};

fn content(text: &str) -> SettingsFile {
    SettingsFile::Content(text.as_bytes().to_vec())
}

fn info(text: &str) -> LogRecord {
    LogRecord { level: Level::Info, message: text.to_string() }
}

fn warn(text: &str) -> LogRecord {
    LogRecord { level: Level::Warn, message: text.to_string() }
}

fn error(text: &str) -> LogRecord {
    LogRecord { level: Level::Error, message: text.to_string() }
}

fn sleep_notice() -> LogRecord {
    info("Initiated sleep, next iteration to be performed in one hour.")
}

#[test]
fn the_period_is_one_hour() {
    assert_eq!(ONE_HOUR, 3600);
    assert_eq!(VERSIONSTRING, "1.0.0");
}

#[test]
fn start_announces_and_reads() {
    assert_eq!(
        start(),
        Step {
            state: State::Reading,
            records: vec![info("Starting splatnet_ping, Version 1.0.0")],
            action: Action::Read,
        }
    );
}

#[test]
fn round_with_a_valid_token_pings_once() {
    let mut sends = 0;
    let mut lines = 0;
    let read = step(start().state, Event::Settings(content("{\"iksm-session\": \"TOKEN\"}")));
    lines += read.records.len();
    assert_eq!(read.records, vec![info("Read token TOKEN")]);
    assert_eq!(
        read.action,
        Action::Send(PingRequest {
            url: "https://app.splatoon2.nintendo.net/api/schedules".to_string(),
            cookie: "iksm_session=TOKEN".to_string(),
            timeout: 30,
        })
    );
    if matches!(read.action, Action::Send(_)) {
        sends += 1;
    }
    assert_eq!(read.state, State::Pinging("TOKEN".to_string()));

    let answered = step(read.state, Event::Reply(PingOutcome::Status(200)));
    lines += answered.records.len();
    assert_eq!(
        answered.records,
        vec![
            info("Sent ping to SplatNet with token TOKEN and received response code 200."),
            sleep_notice(),
        ]
    );
    assert_eq!(answered.action, Action::Sleep(3600));
    if matches!(answered.action, Action::Send(_)) {
        sends += 1;
    }
    assert_eq!(answered.state, State::Sleeping);

    let woken = step(answered.state, Event::Woke);
    assert_eq!(
        woken,
        Step { state: State::Reading, records: vec![], action: Action::Read }
    );
    assert_eq!(sends, 1);
    assert!(lines >= 2);
}

#[test]
fn failed_ping_leads_to_the_sleep() {
    let failed = step(
        State::Pinging("TOKEN".to_string()),
        Event::Reply(PingOutcome::TransportFailure),
    );
    assert_eq!(
        failed,
        Step {
            state: State::Sleeping,
            records: vec![
                error("Failed to send ping, retrying in the next iteration."),
                sleep_notice(),
            ],
            action: Action::Sleep(3600),
        }
    );
}

#[test]
fn round_without_a_token_skips_the_ping() {
    let cases = vec![
        (SettingsFile::Unreadable, ConfigError::ConfigUnreadable),
        (content("not json"), ConfigError::ConfigMalformed),
        (content("[]"), ConfigError::ConfigMalformed),
        (content("{}"), ConfigError::ConfigFieldMissing),
        (content("{\"iksm-session\": 1}"), ConfigError::ConfigFieldWrongType),
    ];
    for (file, err) in cases {
        assert_eq!(
            step(State::Reading, Event::Settings(file)),
            Step {
                state: State::Sleeping,
                records: vec![
                    error(err.cause()),
                    warn("The settings file could not be accessed due to an IO error."),
                    sleep_notice(),
                ],
                action: Action::Sleep(3600),
            }
        );
    }
}

#[test]
fn missing_file_ends_the_round() {
    assert_eq!(
        step(State::Reading, Event::Settings(SettingsFile::Missing)),
        Step {
            state: State::Stopped,
            records: vec![error("Settings file not found.")],
            action: Action::Abort(ConfigError::ConfigMissing),
        }
    );
}

#[test]
fn token_that_cannot_be_sent_counts_as_a_failed_ping() {
    assert_eq!(
        step(State::Reading, Event::Settings(content("{\"iksm-session\": \"a\\nb\"}"))),
        Step {
            state: State::Sleeping,
            records: vec![
                info("Read token a\nb"),
                error("Failed to send ping, retrying in the next iteration."),
                sleep_notice(),
            ],
            action: Action::Sleep(3600),
        }
    );
}

#[test]
fn event_that_is_not_waited_for_is_ignored() {
    let states = vec![
        State::Reading,
        State::Pinging("TOKEN".to_string()),
        State::Sleeping,
        State::Stopped,
    ];
    let events = vec![
        Event::Settings(content("{\"iksm-session\": \"TOKEN\"}")),
        Event::Reply(PingOutcome::Status(200)),
        Event::Woke,
    ];
    for (i, state) in states.iter().enumerate() {
        for (j, event) in events.iter().enumerate() {
            let decided = step(state.clone(), event.clone());
            if i == j {
                assert_ne!(decided.action, Action::Ignore);
            } else {
                assert_eq!(
                    decided,
                    Step { state: state.clone(), records: vec![], action: Action::Ignore }
                );
            }
        }
    }
}

#[test]
fn rounds_follow_one_another() {
    let mut current = start();
    let mut sends = 0;
    let mut sleeps = 0;
    for round in 0..3 {
        assert_eq!(current.action, Action::Read);
        let file = if round == 1 {
            content("{}")
        } else {
            content("{\"iksm-session\": \"TOKEN\"}")
        };
        current = step(current.state, Event::Settings(file));
        if let Action::Send(_) = current.action {
            sends += 1;
            current = step(current.state, Event::Reply(PingOutcome::Status(403)));
        }
        assert_eq!(current.action, Action::Sleep(ONE_HOUR));
        sleeps += 1;
        current = step(current.state, Event::Woke);
    }
    assert_eq!(sends, 2);
    assert_eq!(sleeps, 3);
}
