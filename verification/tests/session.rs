use socks_uot::session::{
    back_report, failure_reply, front_report, select_method, Action, BackAction, BackEvent,
    BackSession, BackStage, Command, Dial, DialAction, DialError, DialEvent, DialStage, Ending,
    Event, Reply, Session, Severity, Stage, TaskEnd, METHOD_NONE, METHOD_UNACCEPTABLE,
};

fn negotiated() -> Session {
    let mut session = Session::new();
    assert_eq!(session.step(Event::Handshake(vec![METHOD_NONE])), Action::AcceptMethod);
    session
}

fn relaying() -> Session {
    let mut session = negotiated();
    assert_eq!(session.step(Event::Request(Command::Associate)), Action::DialTunnel);
    assert_eq!(session.step(Event::Dialed), Action::BindSocket);
    assert_eq!(session.step(Event::Bound), Action::GrantAssociate);
    assert_eq!(session.stage(), Stage::Relaying);
    session
}

#[test]
fn method_bytes() {
    assert_eq!(METHOD_NONE, 0);
    assert_eq!(METHOD_UNACCEPTABLE, 255);
}

#[test]
fn no_authentication_is_chosen_when_offered() {
    assert_eq!(select_method(&[0]), METHOD_NONE);
    assert_eq!(select_method(&[2, 1, 0]), METHOD_NONE);
    assert_eq!(select_method(&[0, 0, 2]), METHOD_NONE);
    assert_eq!(select_method(&[0x80, 0, 0xff]), METHOD_NONE);
}

#[test]
fn nothing_else_is_acceptable() {
    assert_eq!(select_method(&[]), METHOD_UNACCEPTABLE);
    assert_eq!(select_method(&[1]), METHOD_UNACCEPTABLE);
    assert_eq!(select_method(&[2, 1]), METHOD_UNACCEPTABLE);
    assert_eq!(select_method(&[0xff]), METHOD_UNACCEPTABLE);
    let all_but_none: Vec<u8> = (1u8..=255).collect();
    assert_eq!(select_method(&all_but_none), METHOD_UNACCEPTABLE);
}

#[test]
fn session_starts_by_negotiating() {
    let session = Session::new();
    assert_eq!(session.stage(), Stage::Negotiating);
    assert!(!session.is_over());
}

#[test]
fn offer_without_no_authentication_is_rejected() {
    let mut session = Session::new();
    assert_eq!(session.step(Event::Handshake(vec![1, 2])), Action::RejectMethods);
    assert_eq!(session.stage(), Stage::Rejected);
    assert!(session.is_over());
    assert_eq!(session.step(Event::Request(Command::Connect)), Action::Finish(Severity::Quiet));
    assert_eq!(session.stage(), Stage::Rejected);
}

#[test]
fn connect_is_dialed_granted_and_piped() {
    let mut session = negotiated();
    assert_eq!(session.stage(), Stage::Negotiated);
    assert_eq!(session.step(Event::Request(Command::Connect)), Action::DialTarget);
    assert_eq!(session.stage(), Stage::Connecting);
    assert_eq!(session.step(Event::Dialed), Action::GrantConnect);
    assert_eq!(session.stage(), Stage::Piping);
    assert!(!session.is_over());
    assert_eq!(session.step(Event::Ended(TaskEnd::Finished)), Action::Finish(Severity::Quiet));
    assert_eq!(session.stage(), Stage::Closed(Ending::Completed));
    assert!(session.is_over());
}

#[test]
fn broken_pipe_ends_connect_as_broken() {
    for end in [TaskEnd::EndOfStream, TaskEnd::Failed] {
        let mut session = negotiated();
        session.step(Event::Request(Command::Connect));
        session.step(Event::Dialed);
        assert_eq!(session.step(Event::Ended(end)), Action::Finish(Severity::Quiet));
        assert_eq!(session.stage(), Stage::Closed(Ending::Broken));
    }
}

#[test]
fn associate_dials_binds_grants_and_relays() {
    let session = relaying();
    assert!(!session.is_over());
}

#[test]
fn first_task_to_end_closes_the_association() {
    for (end, severity) in [
        (TaskEnd::Finished, Severity::Quiet),
        (TaskEnd::EndOfStream, Severity::Info),
        (TaskEnd::Failed, Severity::Error),
    ] {
        let mut session = relaying();
        assert_eq!(session.step(Event::Ended(end)), Action::Finish(severity));
        assert_eq!(session.stage(), Stage::Closed(Ending::Completed));
        assert_eq!(session.step(Event::Ended(TaskEnd::Failed)), Action::Finish(Severity::Quiet));
        assert_eq!(session.stage(), Stage::Closed(Ending::Completed));
    }
    let mut session = relaying();
    assert_eq!(session.step(Event::Broken), Action::Finish(Severity::Quiet));
    assert_eq!(session.stage(), Stage::Closed(Ending::Broken));
}

#[test]
fn bind_is_answered_with_command_not_supported() {
    let mut session = negotiated();
    assert_eq!(
        session.step(Event::Request(Command::Bind)),
        Action::Refuse { reply: Reply::CommandNotSupported, shutdown: false }
    );
    assert_eq!(session.stage(), Stage::Closed(Ending::Completed));
    assert!(session.is_over());
}

#[test]
fn unreadable_request_is_answered_with_general_failure() {
    let mut session = negotiated();
    assert_eq!(
        session.step(Event::BadRequest),
        Action::Refuse { reply: Reply::GeneralFailure, shutdown: true }
    );
    assert_eq!(session.stage(), Stage::Closed(Ending::BadRequest));
}

#[test]
fn failed_dial_is_told_to_the_client() {
    let cases = [
        (DialError::Unreachable, Reply::GeneralFailure),
        (DialError::AuthUnsupported, Reply::GeneralFailure),
        (DialError::Refused(Reply::HostUnreachable), Reply::ConnectionRefused),
        (DialError::Refused(Reply::GeneralFailure), Reply::ConnectionRefused),
        (DialError::Refused(Reply::ConnectionRefused), Reply::ConnectionRefused),
    ];
    for (error, reply) in cases {
        assert_eq!(failure_reply(error), reply);
        for command in [Command::Connect, Command::Associate] {
            let mut session = negotiated();
            session.step(Event::Request(command));
            assert_eq!(
                session.step(Event::DialFailed(error)),
                Action::Refuse { reply, shutdown: false }
            );
            assert_eq!(session.stage(), Stage::Closed(Ending::Dial(error)));
        }
    }
}

#[test]
fn failed_allocation_ends_the_session() {
    let mut session = negotiated();
    session.step(Event::Request(Command::Associate));
    session.step(Event::Dialed);
    assert_eq!(session.stage(), Stage::Allocating);
    assert_eq!(session.step(Event::Broken), Action::Finish(Severity::Quiet));
    assert_eq!(session.stage(), Stage::Closed(Ending::Broken));
}

#[test]
fn broken_connection_ends_the_session_at_any_stage() {
    let mut at_start = Session::new();
    assert_eq!(at_start.step(Event::Broken), Action::Finish(Severity::Quiet));
    assert_eq!(at_start.stage(), Stage::Closed(Ending::Broken));

    let mut after_handshake = negotiated();
    assert_eq!(after_handshake.step(Event::Broken), Action::Finish(Severity::Quiet));
    assert_eq!(after_handshake.stage(), Stage::Closed(Ending::Broken));
}

#[test]
fn event_out_of_turn_ends_the_session() {
    let mut session = Session::new();
    assert_eq!(session.step(Event::Dialed), Action::Finish(Severity::Quiet));
    assert_eq!(session.stage(), Stage::Closed(Ending::Broken));

    let mut session = negotiated();
    assert_eq!(session.step(Event::Handshake(vec![0])), Action::Finish(Severity::Quiet));
    assert_eq!(session.stage(), Stage::Closed(Ending::Broken));

    let mut session = negotiated();
    session.step(Event::Request(Command::Connect));
    assert_eq!(session.step(Event::Bound), Action::Finish(Severity::Quiet));
    assert_eq!(session.stage(), Stage::Closed(Ending::Broken));
}

#[test]
fn end_of_stream_is_reported_below_an_error() {
    assert_eq!(front_report(TaskEnd::Finished), Severity::Quiet);
    assert_eq!(front_report(TaskEnd::EndOfStream), Severity::Info);
    assert_eq!(front_report(TaskEnd::Failed), Severity::Error);
    assert_eq!(back_report(TaskEnd::Finished), Severity::Quiet);
    assert_eq!(back_report(TaskEnd::EndOfStream), Severity::Quiet);
    assert_eq!(back_report(TaskEnd::Failed), Severity::Error);
}

#[test]
fn dial_offers_no_authentication_alone() {
    assert_eq!(Dial::offer(), vec![METHOD_NONE]);
}

#[test]
fn dial_runs_through_greeting_and_request() {
    let mut dial = Dial::new();
    assert_eq!(dial.stage(), DialStage::Connecting);
    assert_eq!(dial.step(DialEvent::Connected), DialAction::Greet);
    assert_eq!(dial.stage(), DialStage::Greeting);
    assert_eq!(dial.step(DialEvent::Method(METHOD_NONE)), DialAction::Request);
    assert_eq!(dial.stage(), DialStage::Requesting);
    assert_eq!(dial.step(DialEvent::Replied(Reply::Succeeded)), DialAction::Finish);
    assert_eq!(dial.stage(), DialStage::Established);
    assert_eq!(dial.step(DialEvent::Broken), DialAction::Finish);
    assert_eq!(dial.stage(), DialStage::Established);
}

#[test]
fn dial_needs_no_authentication() {
    for method in [1u8, 2, 0x80, METHOD_UNACCEPTABLE] {
        let mut dial = Dial::new();
        dial.step(DialEvent::Connected);
        assert_eq!(
            dial.step(DialEvent::Method(method)),
            DialAction::Abort(DialError::AuthUnsupported)
        );
        assert_eq!(dial.stage(), DialStage::Failed(DialError::AuthUnsupported));
        assert_eq!(
            dial.step(DialEvent::Replied(Reply::Succeeded)),
            DialAction::Abort(DialError::AuthUnsupported)
        );
    }
}

#[test]
fn dial_fails_on_any_reply_but_success() {
    for reply in [
        Reply::GeneralFailure,
        Reply::ConnectionNotAllowed,
        Reply::NetworkUnreachable,
        Reply::HostUnreachable,
        Reply::ConnectionRefused,
        Reply::TtlExpired,
        Reply::CommandNotSupported,
        Reply::AddressTypeNotSupported,
    ] {
        let mut dial = Dial::new();
        dial.step(DialEvent::Connected);
        dial.step(DialEvent::Method(METHOD_NONE));
        assert_eq!(dial.step(DialEvent::Replied(reply)), DialAction::Abort(DialError::Refused(reply)));
        assert_eq!(dial.stage(), DialStage::Failed(DialError::Refused(reply)));
    }
}

#[test]
fn dial_fails_when_the_exchange_breaks() {
    let mut unreachable = Dial::new();
    assert_eq!(unreachable.step(DialEvent::Broken), DialAction::Abort(DialError::Unreachable));

    let mut silent = Dial::new();
    silent.step(DialEvent::Connected);
    assert_eq!(silent.step(DialEvent::Broken), DialAction::Abort(DialError::Unreachable));

    let mut cut = Dial::new();
    cut.step(DialEvent::Connected);
    cut.step(DialEvent::Method(METHOD_NONE));
    assert_eq!(cut.step(DialEvent::Broken), DialAction::Abort(DialError::Unreachable));
    assert_eq!(cut.stage(), DialStage::Failed(DialError::Unreachable));

    let mut early = Dial::new();
    assert_eq!(
        early.step(DialEvent::Replied(Reply::Succeeded)),
        DialAction::Abort(DialError::Unreachable)
    );
}

#[test]
fn back_session_binds_then_relays_until_a_pump_ends() {
    for (end, severity) in [
        (TaskEnd::Finished, Severity::Quiet),
        (TaskEnd::EndOfStream, Severity::Quiet),
        (TaskEnd::Failed, Severity::Error),
    ] {
        let mut session = BackSession::new();
        assert_eq!(session.stage(), BackStage::Allocating);
        assert_eq!(session.step(BackEvent::Bound), BackAction::Relay);
        assert_eq!(session.stage(), BackStage::Relaying);
        assert_eq!(session.step(BackEvent::Ended(end)), BackAction::Finish(severity));
        assert_eq!(session.stage(), BackStage::Closed(Ending::Completed));
        assert_eq!(session.step(BackEvent::Bound), BackAction::Finish(Severity::Quiet));
        assert_eq!(session.stage(), BackStage::Closed(Ending::Completed));
    }
}

#[test]
fn back_session_without_socket_is_over() {
    let mut session = BackSession::new();
    assert_eq!(session.step(BackEvent::Broken), BackAction::Finish(Severity::Quiet));
    assert_eq!(session.stage(), BackStage::Closed(Ending::Broken));

    let mut early = BackSession::new();
    assert_eq!(early.step(BackEvent::Ended(TaskEnd::Failed)), BackAction::Finish(Severity::Quiet));
    assert_eq!(early.stage(), BackStage::Closed(Ending::Broken));
}
