use bitwarden_backup::fault::Fault;
use bitwarden_backup::session::{exit_code, Action, Event, Phase, Session};

const MINIMAL: &str = r#"{"folders":[{}],"items":[{}]}"#;

fn delivered(text: &str) -> Event {
    Event::Delivered { payload: String::from(text), on_disk_len: text.len() as u64 }
}

/// Feeds the answers in order and returns each request together with the
/// final one.
fn drive(session: &mut Session, answers: Vec<Event>) -> Vec<Action> {
    let mut requests = Vec::new();
    for answer in answers {
        requests.push(session.pending());
        session.step(answer);
    }
    requests.push(session.pending());
    requests
}

#[test]
fn a_valid_export_is_emitted_verbatim_and_exits_zero() {
    let mut s = Session::new();
    let asked = drive(&mut s, vec![Event::Done, delivered(MINIMAL), Event::Done]);
    assert_eq!(
        asked,
        vec![Action::CreateChannel, Action::Receive, Action::EraseAtRest(MINIMAL.len() as u64), Action::Emit]
    );
    assert_eq!(s.phase(), Phase::Emitting);
    assert_eq!(s.payload(), MINIMAL);
    s.step(Event::Done);
    assert_eq!(s.payload(), "");
    assert_eq!(s.pending(), Action::RemoveChannel);
    s.step(Event::Done);
    assert_eq!(s.pending(), Action::Finish(None));
    assert_eq!(exit_code(None), 0);
    assert!(!s.removal_failed());
}

#[test]
fn a_full_export_is_emitted_byte_for_byte() {
    let text = "\n{ \"encrypted\": false, \"folders\": [ { \"id\": \"f\", \"name\": \"Work\" } ],\n  \"items\": [ { \"type\": 1, \"name\": \"mail\", \"login\": { \"username\": \"me\", \"password\": \"p\u{e4}ss\" } } ] }\n";
    let mut s = Session::new();
    drive(&mut s, vec![Event::Done, delivered(text), Event::Done]);
    assert_eq!(s.pending(), Action::Emit);
    assert_eq!(s.payload().as_bytes(), text.as_bytes());
    let asked = drive(&mut s, vec![Event::Done, Event::Done]);
    assert_eq!(asked, vec![Action::Emit, Action::RemoveChannel, Action::Finish(None)]);
}

#[test]
fn malformed_payload_is_never_emitted() {
    let mut s = Session::new();
    let asked = drive(&mut s, vec![Event::Done, delivered("{ not json"), Event::Done, Event::Done]);
    assert_eq!(
        asked,
        vec![
            Action::CreateChannel,
            Action::Receive,
            Action::EraseAtRest(10),
            Action::RemoveChannel,
            Action::Finish(Some(Fault::Parse)),
        ]
    );
    assert_eq!(s.payload(), "");
    assert_ne!(exit_code(Some(Fault::Parse)), 0);
}

#[test]
fn wrong_shape_ends_in_validation_failure() {
    let text = r#"{"my-secret-key":"my-secret-key"}"#;
    let mut s = Session::new();
    let asked = drive(&mut s, vec![Event::Done, delivered(text), Event::Done, Event::Done]);
    assert!(!asked.contains(&Action::Emit));
    assert_eq!(asked.last(), Some(&Action::Finish(Some(Fault::Validation))));
    assert!(!s.detail().is_empty());
    assert_eq!(s.payload(), "");
    assert_ne!(exit_code(Some(Fault::Validation)), 0);
}

#[test]
fn channel_failure_still_cleans_up() {
    let mut s = Session::new();
    let asked = drive(&mut s, vec![Event::Failed(Fault::Io), Event::Done]);
    assert_eq!(
        asked,
        vec![Action::CreateChannel, Action::RemoveChannel, Action::Finish(Some(Fault::Channel))]
    );
}

#[test]
fn capture_failures_keep_their_kind() {
    let mut s = Session::new();
    let asked = drive(&mut s, vec![Event::Done, Event::Failed(Fault::Watch), Event::Done]);
    assert_eq!(asked[2], Action::RemoveChannel);
    assert_eq!(asked[3], Action::Finish(Some(Fault::Watch)));

    let mut s = Session::new();
    let asked = drive(&mut s, vec![Event::Done, Event::Failed(Fault::Io), Event::Done]);
    assert_eq!(asked[3], Action::Finish(Some(Fault::Io)));

    let mut s = Session::new();
    let asked = drive(&mut s, vec![Event::Done, Event::Done, Event::Done]);
    assert_eq!(asked[3], Action::Finish(Some(Fault::Io)));
}

#[test]
fn erase_failure_wipes_and_fails() {
    let mut s = Session::new();
    drive(&mut s, vec![Event::Done, delivered(MINIMAL)]);
    assert_eq!(s.payload(), MINIMAL);
    s.step(Event::Failed(Fault::Io));
    assert_eq!(s.payload(), "");
    assert_eq!(s.pending(), Action::RemoveChannel);
    s.step(Event::Done);
    assert_eq!(s.pending(), Action::Finish(Some(Fault::Io)));
}

#[test]
fn output_failure_wipes_and_fails() {
    let mut s = Session::new();
    drive(&mut s, vec![Event::Done, delivered(MINIMAL), Event::Done]);
    s.step(Event::Failed(Fault::Io));
    assert_eq!(s.payload(), "");
    let asked = drive(&mut s, vec![Event::Done]);
    assert_eq!(asked, vec![Action::RemoveChannel, Action::Finish(Some(Fault::Io))]);
}

#[test]
fn removal_failure_is_a_warning_only() {
    let mut s = Session::new();
    let asked = drive(
        &mut s,
        vec![Event::Done, delivered(MINIMAL), Event::Done, Event::Done, Event::Failed(Fault::Channel)],
    );
    assert_eq!(asked.last(), Some(&Action::Finish(None)));
    assert!(s.removal_failed());
}

#[test]
fn every_session_ends_after_five_answers() {
    let mut s = Session::new();
    drive(&mut s, vec![Event::Done, Event::Done, Event::Done, Event::Done, Event::Done]);
    assert_eq!(s.phase(), Phase::Terminal);
    s.step(delivered(MINIMAL));
    assert_eq!(s.phase(), Phase::Terminal);
    assert_eq!(s.payload(), "");
}

#[test]
fn a_second_delivery_is_not_captured() {
    let mut s = Session::new();
    drive(&mut s, vec![Event::Done, delivered(MINIMAL)]);
    s.step(delivered(r#"{"folders":[],"items":[]}"#));
    assert_eq!(s.payload(), "");
    assert_eq!(s.pending(), Action::RemoveChannel);
}

#[test]
fn exit_code_is_zero_only_on_success() {
    assert_eq!(exit_code(None), 0);
    for f in [Fault::Config, Fault::Channel, Fault::Io, Fault::Watch, Fault::Parse, Fault::Validation] {
        assert_ne!(exit_code(Some(f)), 0);
    }
}

#[test]
fn abandon_wipes_and_goes_to_cleanup() {
    let mut s = Session::new();
    drive(&mut s, vec![Event::Done, delivered(MINIMAL)]);
    assert_eq!(s.payload(), MINIMAL);
    s.abandon(Fault::Validation);
    assert_eq!(s.payload(), "");
    let asked = drive(&mut s, vec![Event::Done]);
    assert_eq!(asked, vec![Action::RemoveChannel, Action::Finish(Some(Fault::Validation))]);
}

#[test]
fn abandon_in_cleanup_keeps_the_outcome() {
    let mut s = Session::new();
    drive(&mut s, vec![Event::Done, delivered(MINIMAL), Event::Done, Event::Done]);
    assert_eq!(s.pending(), Action::RemoveChannel);
    s.abandon(Fault::Io);
    assert_eq!(s.pending(), Action::RemoveChannel);
    s.step(Event::Done);
    assert_eq!(s.pending(), Action::Finish(None));
}

#[test]
fn detail_is_empty_unless_refused() {
    let mut s = Session::new();
    drive(&mut s, vec![Event::Done, delivered(MINIMAL), Event::Done]);
    assert_eq!(s.detail(), "");
    let mut s = Session::new();
    drive(&mut s, vec![Event::Done, delivered("[1, 2"), Event::Done]);
    assert_eq!(s.pending(), Action::RemoveChannel);
    assert!(!s.detail().is_empty());
}
