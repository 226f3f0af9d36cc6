use rm_rime::daemon::{Action, Daemon, DaemonError, EngineOp, Event, Phase, Request};
use rm_rime::response::Composition;
use rm_rime::socket::{plan_socket_path, PathPlan};

fn composition(preedit: Option<&str>, candidates: &[&str]) -> Composition {
    Composition {
        preedit: preedit.map(String::from),
        candidates: candidates.iter().map(|c| c.to_string()).collect(),
    }
}

fn connect(daemon: &mut Daemon) {
    assert!(matches!(daemon.step(Event::OutputConnected), Action::AcceptRequest));
    assert_eq!(daemon.phase, Phase::AwaitingRequest);
}

fn respond(action: Action) -> String {
    match action {
        Action::Respond(payload) => payload,
        other => panic!("expected a response, got {other:?}"),
    }
}

#[test]
fn key_cycle_with_candidates() {
    let mut daemon = Daemon::new();
    assert_eq!(daemon.phase, Phase::AwaitingOutputConnection);
    connect(&mut daemon);
    match daemon.step(Event::Requested(Request::Key(String::from("ㄅ")))) {
        Action::Apply(EngineOp::KeySequence(k)) => assert_eq!(k, "1"),
        other => panic!("unexpected {other:?}"),
    }
    assert_eq!(daemon.phase, Phase::Dispatching);
    let payload = respond(daemon.step(Event::CompositionRead(composition(Some("ㄅ"), &["不", "吧"]))));
    assert_eq!(payload, r#"{"candidates":["不","吧"],"preedit":"ㄅ"}"#);
    assert_eq!(daemon.phase, Phase::AwaitingOutputConnection);
}

#[test]
fn raw_key_sequence_is_passed_verbatim() {
    let mut daemon = Daemon::new();
    connect(&mut daemon);
    match daemon.step(Event::Requested(Request::Key(String::from("1a")))) {
        Action::Apply(EngineOp::KeySequence(k)) => assert_eq!(k, "1a"),
        other => panic!("unexpected {other:?}"),
    }
}

#[test]
fn underscore_key_applies_empty_sequence() {
    let mut daemon = Daemon::new();
    connect(&mut daemon);
    match daemon.step(Event::Requested(Request::Key(String::from("_")))) {
        Action::Apply(EngineOp::KeySequence(k)) => assert_eq!(k, ""),
        other => panic!("unexpected {other:?}"),
    }
}

#[test]
fn empty_candidates_trigger_space_then_report_after_it() {
    let mut daemon = Daemon::new();
    connect(&mut daemon);
    assert!(matches!(
        daemon.step(Event::Requested(Request::Backspace)),
        Action::Apply(EngineOp::Backspace)
    ));
    match daemon.step(Event::CompositionRead(composition(Some("ㄅ"), &[]))) {
        Action::Apply(EngineOp::KeySequence(k)) => assert_eq!(k, " "),
        other => panic!("unexpected {other:?}"),
    }
    assert_eq!(daemon.phase, Phase::Flushing);
    let payload = respond(daemon.step(Event::CompositionRead(composition(None, &[]))));
    assert_eq!(payload, r#"{"candidates":[],"preedit":""}"#);
    assert_eq!(daemon.phase, Phase::AwaitingOutputConnection);
}

#[test]
fn backspace_on_empty_composition() {
    let mut daemon = Daemon::new();
    connect(&mut daemon);
    assert!(matches!(
        daemon.step(Event::Requested(Request::Backspace)),
        Action::Apply(EngineOp::Backspace)
    ));
    assert!(matches!(
        daemon.step(Event::CompositionRead(composition(None, &[]))),
        Action::Apply(EngineOp::KeySequence(_))
    ));
    let payload = respond(daemon.step(Event::CompositionRead(composition(None, &[]))));
    assert_eq!(payload, r#"{"candidates":[],"preedit":""}"#);
}

#[test]
fn selecting_the_only_candidate() {
    let mut daemon = Daemon::new();
    connect(&mut daemon);
    assert!(matches!(
        daemon.step(Event::Requested(Request::Candidate(String::from("0")))),
        Action::Apply(EngineOp::SelectCandidate(0))
    ));
    assert!(matches!(
        daemon.step(Event::CompositionRead(composition(None, &[]))),
        Action::Apply(EngineOp::KeySequence(_))
    ));
    let payload = respond(daemon.step(Event::CompositionRead(composition(None, &[]))));
    assert_eq!(payload, r#"{"candidates":[],"preedit":""}"#);
}

#[test]
fn candidate_payload_with_newline() {
    let mut daemon = Daemon::new();
    connect(&mut daemon);
    assert!(matches!(
        daemon.step(Event::Requested(Request::Candidate(String::from("3\n")))),
        Action::Apply(EngineOp::SelectCandidate(3))
    ));
}

#[test]
fn malformed_index_aborts_before_the_engine() {
    let mut daemon = Daemon::new();
    connect(&mut daemon);
    assert!(matches!(
        daemon.step(Event::Requested(Request::Candidate(String::from("two")))),
        Action::Abort(DaemonError::MalformedIndex)
    ));
    assert_eq!(daemon.phase, Phase::AwaitingRequest);
    assert!(matches!(
        Daemon::dispatch(Request::Candidate(String::from("-1"))),
        Err(DaemonError::MalformedIndex)
    ));
}

#[test]
fn one_request_per_cycle() {
    let mut daemon = Daemon::new();
    connect(&mut daemon);
    assert!(matches!(
        daemon.step(Event::Requested(Request::Key(String::from("ㄉ")))),
        Action::Apply(EngineOp::KeySequence(_))
    ));
    assert!(matches!(
        daemon.step(Event::Requested(Request::Backspace)),
        Action::Abort(DaemonError::UnexpectedEvent)
    ));
    assert_eq!(daemon.phase, Phase::Dispatching);
    respond(daemon.step(Event::CompositionRead(composition(Some("ㄉ"), &["的"]))));
    connect(&mut daemon);
    assert!(matches!(
        daemon.step(Event::Requested(Request::Backspace)),
        Action::Apply(EngineOp::Backspace)
    ));
}

#[test]
fn events_out_of_order_are_refused() {
    let mut daemon = Daemon::new();
    assert!(matches!(
        daemon.step(Event::Requested(Request::Backspace)),
        Action::Abort(DaemonError::UnexpectedEvent)
    ));
    assert!(matches!(
        daemon.step(Event::CompositionRead(composition(None, &[]))),
        Action::Abort(DaemonError::UnexpectedEvent)
    ));
    connect(&mut daemon);
    assert!(matches!(
        daemon.step(Event::OutputConnected),
        Action::Abort(DaemonError::UnexpectedEvent)
    ));
    assert_eq!(daemon.phase, Phase::AwaitingRequest);
}

#[test]
fn socket_path_plans() {
    assert_eq!(plan_socket_path(false, false), PathPlan::Bind);
    assert_eq!(plan_socket_path(true, true), PathPlan::RemoveThenBind);
    assert_eq!(plan_socket_path(true, false), PathPlan::Conflict);
}
