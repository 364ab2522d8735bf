use komari_monitor_rs::callbacks::command::{judge_callback, CallbackError};
use komari_monitor_rs::callbacks::ping::{after_probe, PingStep};
use komari_monitor_rs::callbacks::{dispatch, Dispatch, Envelope, Inbound, Step};
use komari_monitor_rs::config::ConnectionConfig;
use komari_monitor_rs::http::status_is_success;

#[test]
fn status_success_is_200_to_299() {
    assert!(!status_is_success(0));
    assert!(!status_is_success(100));
    assert!(!status_is_success(199));
    assert!(status_is_success(200));
    assert!(status_is_success(204));
    assert!(status_is_success(299));
    assert!(!status_is_success(300));
    assert!(!status_is_success(404));
    assert!(!status_is_success(500));
    assert!(!status_is_success(u16::MAX));
}

#[test]
fn callback_is_judged_by_its_status() {
    assert_eq!(judge_callback(Some(200)), Ok(()));
    assert_eq!(judge_callback(Some(201)), Ok(()));
    assert_eq!(judge_callback(Some(299)), Ok(()));
    assert_eq!(judge_callback(Some(199)), Err(CallbackError::Status(199)));
    assert_eq!(judge_callback(Some(300)), Err(CallbackError::Status(300)));
    assert_eq!(judge_callback(Some(502)), Err(CallbackError::Status(502)));
}

#[test]
fn callback_without_response_is_a_post_error() {
    assert_eq!(judge_callback(None), Err(CallbackError::Post));
}

#[test]
fn probe_result_becomes_the_reply() {
    let result = "{\"target\":\"127.0.0.1\",\"ok\":true}".to_string();
    assert_eq!(after_probe(Ok(result.clone())), PingStep::Reply(result));
    assert_eq!(after_probe(Ok(String::new())), PingStep::Reply(String::new()));
}

#[test]
fn failed_probe_sends_nothing() {
    let why = "timed out".to_string();
    assert_eq!(after_probe(Err(why.clone())), PingStep::Failed(why));
}

#[test]
fn scenario_ping_round_trip() {
    let config = ConnectionConfig {
        terminal: false,
        tls: false,
        ignore_unsafe_cert: false,
        terminal_entry: "sh".to_string(),
        exec_callback: "http://c/result".to_string(),
        ws_terminal: "ws://c/terminal?token=t".to_string(),
    };
    let raw = "{\"message\":\"ping\",\"target\":\"127.0.0.1\"}".to_string();
    let inbound = Inbound::Text {
        raw: raw.clone(),
        envelope: Some(Envelope { message: "ping".to_string() }),
    };
    let step = dispatch(&config, &inbound);
    let Step::Next(Dispatch::Ping { raw: handed }) = step else {
        panic!("a ping message must start a ping task");
    };
    assert_eq!(handed, raw);
    let result = "{\"target\":\"127.0.0.1\",\"reachable\":true}".to_string();
    assert_eq!(after_probe(Ok(result.clone())), PingStep::Reply(result));
}
