use bind::reconnect::{Action, Event, Reconnect, ServiceError, State};

fn connecting() -> (Reconnect<()>, u64) {
    let mut service = Reconnect::new(());
    match service.step(Event::Invoked) {
        Action::Connect(attempt) => (service, attempt),
        other => panic!("expected a connect, got {:?}", other),
    }
}

#[test]
fn a_new_service_is_idle() {
    let service = Reconnect::new(5u8);
    assert_eq!(service.state(), State::Idle);
    assert_eq!(service.attempt(), 0);
    assert_eq!(*service.get_ref(), 5u8);
}

#[test]
fn first_invocation_connects() {
    let mut service = Reconnect::new(());
    assert_eq!(service.step(Event::Invoked), Action::Connect(1));
    assert_eq!(service.state(), State::Connecting);
    assert_eq!(service.attempt(), 1);
}

#[test]
fn invocation_waits_while_connecting() {
    let (mut service, attempt) = connecting();
    assert_eq!(service.step(Event::Invoked), Action::Wait);
    assert_eq!(service.state(), State::Connecting);
    assert_eq!(service.attempt(), attempt);
}

#[test]
fn success_connects_and_invocation_sends() {
    let (mut service, attempt) = connecting();
    assert_eq!(service.step(Event::ConnectSucceeded(attempt)), Action::Ready);
    assert_eq!(service.state(), State::Connected);
    assert_eq!(service.step(Event::Invoked), Action::Send);
    assert_eq!(service.step(Event::Invoked), Action::Send);
    assert_eq!(service.state(), State::Connected);
}

#[test]
fn connector_that_never_resolves_times_out() {
    let (mut service, attempt) = connecting();
    assert_eq!(service.step(Event::Invoked), Action::Wait);
    assert_eq!(
        service.step(Event::TimerExpired(attempt)),
        Action::Fail(ServiceError::ConnectTimeout)
    );
    assert_eq!(service.state(), State::Idle);
}

#[test]
fn outcome_after_the_timeout_is_ignored() {
    let (mut service, attempt) = connecting();
    service.step(Event::TimerExpired(attempt));
    assert_eq!(service.step(Event::ConnectSucceeded(attempt)), Action::Ignore);
    assert_eq!(service.step(Event::ConnectFailed(attempt)), Action::Ignore);
    assert_eq!(service.state(), State::Idle);
}

#[test]
fn timer_after_the_outcome_is_ignored() {
    let (mut service, attempt) = connecting();
    service.step(Event::ConnectSucceeded(attempt));
    assert_eq!(service.step(Event::TimerExpired(attempt)), Action::Ignore);
    assert_eq!(service.state(), State::Connected);
}

#[test]
fn connector_failing_once_then_succeeding() {
    let (mut service, first) = connecting();
    assert_eq!(service.step(Event::ConnectFailed(first)), Action::Fail(ServiceError::Connect));
    assert_eq!(service.state(), State::Idle);
    let second = match service.step(Event::Invoked) {
        Action::Connect(attempt) => attempt,
        other => panic!("expected a connect, got {:?}", other),
    };
    assert_ne!(second, first);
    assert_eq!(second, 2);
    assert_eq!(service.step(Event::ConnectSucceeded(first)), Action::Ignore);
    assert_eq!(service.step(Event::ConnectSucceeded(second)), Action::Ready);
    assert_eq!(service.step(Event::Invoked), Action::Send);
}

#[test]
fn lost_connection_is_replaced() {
    let (mut service, first) = connecting();
    service.step(Event::ConnectSucceeded(first));
    assert_eq!(
        service.step(Event::ConnectionFailed(first)),
        Action::Fail(ServiceError::Connection)
    );
    assert_eq!(service.state(), State::Idle);
    assert_eq!(service.step(Event::Invoked), Action::Connect(first + 1));
}

#[test]
fn events_in_the_wrong_state_are_ignored() {
    let mut idle = Reconnect::new(());
    for event in [
        Event::ConnectSucceeded(0),
        Event::ConnectFailed(0),
        Event::TimerExpired(0),
        Event::ConnectionFailed(0),
    ] {
        assert_eq!(idle.step(event), Action::Ignore);
        assert_eq!(idle.state(), State::Idle);
    }
    let (mut service, attempt) = connecting();
    assert_eq!(service.step(Event::ConnectionFailed(attempt)), Action::Ignore);
    assert_eq!(service.step(Event::ConnectFailed(attempt + 1)), Action::Ignore);
    assert_eq!(service.state(), State::Connecting);
    service.step(Event::ConnectSucceeded(attempt));
    assert_eq!(service.step(Event::ConnectFailed(attempt)), Action::Ignore);
    assert_eq!(service.step(Event::ConnectionFailed(attempt + 1)), Action::Ignore);
    assert_eq!(service.state(), State::Connected);
}

#[test]
fn the_recipe_is_kept() {
    let mut service = Reconnect::new(String::from("recipe"));
    service.step(Event::Invoked);
    service.step(Event::ConnectFailed(1));
    service.step(Event::Invoked);
    assert_eq!(service.get_ref(), "recipe");
}
