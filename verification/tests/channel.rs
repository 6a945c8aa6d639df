use firewall_sidecar::channel::{action_with_text, next_read, ChannelEvent, ReadAction};
use firewall_sidecar::error::SidecarError;
use firewall_sidecar::protocol::CommandRequest;
use firewall_sidecar::refresher::RefreshReport;
use firewall_sidecar::supervisor::{Guard, Supervisor};

#[test]
fn output_line_is_the_response() {
    assert_eq!(
        next_read(ChannelEvent::Stdout(b"blocked: CN\n".to_vec())),
        ReadAction::Finish(Ok("blocked: CN\n".to_string()))
    );
    assert_eq!(next_read(ChannelEvent::Stdout(Vec::new())), ReadAction::Finish(Ok(String::new())));
}

#[test]
fn output_line_is_read_as_utf8() {
    assert_eq!(
        next_read(ChannelEvent::Stdout("日本|ok".as_bytes().to_vec())),
        ReadAction::Finish(Ok("日本|ok".to_string()))
    );
    assert_eq!(
        next_read(ChannelEvent::Stdout(vec![b'o', 0xff, b'k'])),
        ReadAction::Finish(Ok("o\u{fffd}k".to_string()))
    );
}

#[test]
fn error_stream_line_is_logged_and_the_wait_goes_on() {
    assert_eq!(
        next_read(ChannelEvent::Stderr(b"rule table reloaded".to_vec())),
        ReadAction::Log("Sidecar output: rule table reloaded".to_string())
    );
    assert_eq!(
        next_read(ChannelEvent::Stderr(vec![0xc3])),
        ReadAction::Log("Sidecar output: \u{fffd}".to_string())
    );
}

#[test]
fn channel_error_ends_the_wait_with_its_text() {
    assert_eq!(
        next_read(ChannelEvent::Error("broken pipe".to_string())),
        ReadAction::Finish(Err("broken pipe".to_string()))
    );
}

#[test]
fn end_of_process_ends_the_wait_as_a_failure() {
    assert_eq!(
        next_read(ChannelEvent::Ended),
        ReadAction::Finish(Err("sidecar process ended".to_string()))
    );
}

#[test]
fn other_observations_are_passed_over() {
    assert_eq!(next_read(ChannelEvent::Other), ReadAction::Wait);
}

#[test]
fn action_takes_the_text_it_is_given() {
    assert_eq!(
        action_with_text(ChannelEvent::Stdout(b"bytes".to_vec()), "text".to_string()),
        ReadAction::Finish(Ok("text".to_string()))
    );
    assert_eq!(
        action_with_text(ChannelEvent::Stderr(b"bytes".to_vec()), "text".to_string()),
        ReadAction::Log("Sidecar output: text".to_string())
    );
    assert_eq!(
        action_with_text(ChannelEvent::Error("detail".to_string()), "text".to_string()),
        ReadAction::Finish(Err("detail".to_string()))
    );
    assert_eq!(
        action_with_text(ChannelEvent::Ended, "text".to_string()),
        ReadAction::Finish(Err("sidecar process ended".to_string()))
    );
    assert_eq!(action_with_text(ChannelEvent::Other, "text".to_string()), ReadAction::Wait);
}

fn await_response(
    supervisor: &mut Supervisor,
    events: Vec<ChannelEvent>,
    logged: &mut Vec<String>,
) -> Option<Result<String, SidecarError>> {
    for event in events {
        match next_read(event) {
            ReadAction::Wait => {}
            ReadAction::Log(text) => logged.push(text),
            ReadAction::Finish(outcome) => return Some(supervisor.complete(outcome)),
        }
    }
    None
}

fn running() -> Supervisor {
    let mut supervisor = Supervisor::new();
    let report = RefreshReport::Exited { code: Some(0), stderr: Vec::new() };
    assert_eq!(supervisor.begin_startup(&report), Ok("daemon".to_string()));
    assert_eq!(supervisor.initialize(Ok(())), Ok(()));
    supervisor
}

#[test]
fn guard_is_held_until_the_response_has_come() {
    let mut supervisor = running();
    let mut logged = Vec::new();
    assert_eq!(supervisor.dispatch(&CommandRequest::Status), Ok("status\n".to_string()));
    let noise = vec![ChannelEvent::Stderr(b"warming up".to_vec()), ChannelEvent::Other];
    assert_eq!(await_response(&mut supervisor, noise, &mut logged), None);
    assert_eq!(supervisor.guard(), Guard::Held);
    let events = vec![
        ChannelEvent::Stderr(b"still here".to_vec()),
        ChannelEvent::Stdout(b"CN,RU".to_vec()),
        ChannelEvent::Stdout(b"late".to_vec()),
    ];
    assert_eq!(
        await_response(&mut supervisor, events, &mut logged),
        Some(Ok("CN,RU".to_string()))
    );
    assert_eq!(supervisor.guard(), Guard::Free);
    assert_eq!(
        logged,
        vec!["Sidecar output: warming up".to_string(), "Sidecar output: still here".to_string()]
    );
}

#[test]
fn process_that_ends_while_awaited_fails_the_command() {
    let mut supervisor = running();
    let mut logged = Vec::new();
    assert_eq!(supervisor.dispatch(&CommandRequest::UnblockAll), Ok("unblock-all\n".to_string()));
    let outcome = await_response(&mut supervisor, vec![ChannelEvent::Ended], &mut logged);
    assert_eq!(
        outcome,
        Some(Err(SidecarError::SubprocessIOFailure("sidecar process ended".to_string())))
    );
    assert_eq!(
        outcome.unwrap().unwrap_err().message(),
        "Failed to send command to sidecar: sidecar process ended"
    );
    assert_eq!(supervisor.guard(), Guard::Free);
    assert!(logged.is_empty());
}
