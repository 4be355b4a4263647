use splatnet_ping::ping::{
    ping_record, ping_request, PingOutcome, PingRequest, COOKIE_PREFIX, NINTENDO_URL,
};
use splatnet_ping::record::{Level, LogRecord};
use splatnet_ping::scheduler::{step, Action, Event, State};

#[test]
fn test_ping() {
    let request = ping_request("invalid").unwrap();
    assert_eq!(request.cookie, "iksm_session=invalid");
    let forbidden = PingOutcome::Status(reqwest::StatusCode::FORBIDDEN.as_u16());
    assert_eq!(forbidden, PingOutcome::Status(403));
    let answered = step(State::Pinging("invalid".to_string()), Event::Reply(forbidden));
    assert_eq!(
        answered.records[0],
        LogRecord {
            level: Level::Info,
            message: "Sent ping to SplatNet with token invalid and received response code 403."
                .to_string(),
        }
    );
    assert_eq!(answered.action, Action::Sleep(3600));
}

#[test]
fn request_carries_the_token_as_a_cookie() {
    assert_eq!(NINTENDO_URL, "https://app.splatoon2.nintendo.net/api/schedules");
    assert_eq!(COOKIE_PREFIX, "iksm_session=");
    assert_eq!(
        ping_request("s0f338ea73ba798a7b7feb5b6b32d89ff990eea9"),
        Some(PingRequest {
            url: "https://app.splatoon2.nintendo.net/api/schedules".to_string(),
            cookie: "iksm_session=s0f338ea73ba798a7b7feb5b6b32d89ff990eea9".to_string(),
            timeout: 30,
        })
    );
}

#[test]
fn request_with_an_empty_token() {
    assert_eq!(ping_request("").unwrap().cookie, "iksm_session=");
}

#[test]
fn request_takes_what_a_header_can_carry() {
    for token in ["a b", "a\tb", "~!@#$%^&*()", "caf\u{e9}", "\u{80}", "\u{1f991}", " "] {
        let request = ping_request(token).unwrap();
        assert_eq!(request.cookie, format!("iksm_session={}", token));
        let header = reqwest::header::HeaderValue::from_str(&request.cookie).unwrap();
        assert_eq!(header.as_bytes(), request.cookie.as_bytes());
    }
}

#[test]
fn request_refuses_what_no_header_can_carry() {
    for token in ["a\nb", "a\rb", "\0", "tok\u{7f}", "\u{1}", "\u{1f}x", "line\n"] {
        assert_eq!(ping_request(token), None);
        assert!(reqwest::header::HeaderValue::from_str(&format!("iksm_session={}", token)).is_err());
    }
}

#[test]
fn any_answer_is_reported_with_its_status() {
    for (code, text) in [(200, "200"), (403, "403"), (500, "500"), (0, "0"), (65535, "65535")] {
        assert_eq!(
            ping_record("tok", PingOutcome::Status(code)),
            LogRecord {
                level: Level::Info,
                message: format!(
                    "Sent ping to SplatNet with token tok and received response code {}.",
                    text
                ),
            }
        );
    }
}

#[test]
fn failure_is_reported_as_an_error() {
    assert_eq!(
        ping_record("tok", PingOutcome::TransportFailure),
        LogRecord {
            level: Level::Error,
            message: "Failed to send ping, retrying in the next iteration.".to_string(),
        }
    );
}
