use pooled_records::machine::{event_answers_exec, RequestMachine, StepAction, StepEvent};
use pooled_records::pool::ConnPool;
use pooled_records::response::HandlerError;

#[test]
fn pool_hands_out_distinct_connections_then_exhausts() {
    let mut pool = ConnPool::new(2);

    let c1 = pool.acquire().expect("first acquire");
    let c2 = pool.acquire().expect("second acquire");
    assert_ne!(c1, c2);

    assert_eq!(pool.acquire(), Err(HandlerError::Pool));
}

#[test]
fn released_connection_can_be_acquired_again() {
    let mut pool = ConnPool::new(1);

    let c1 = pool.acquire().expect("first acquire");
    assert_eq!(pool.acquire(), Err(HandlerError::Pool));

    pool.release(c1);
    let c2 = pool.acquire().expect("acquire after release");
    assert_eq!(c1, c2);
}

#[test]
fn zero_capacity_pool_is_always_exhausted() {
    let mut pool = ConnPool::new(0);
    assert_eq!(pool.acquire(), Err(HandlerError::Pool));
}

#[test]
fn event_guard_accepts_only_the_pending_answer() {
    let (mut m, _) = RequestMachine::new(String::from("an-id"), String::from("frank"));
    assert!(event_answers_exec(&m.phase, &StepEvent::ConnectionOk));
    assert!(event_answers_exec(&m.phase, &StepEvent::ConnectionFailed));
    assert!(!event_answers_exec(&m.phase, &StepEvent::SchemaOk));
    assert!(!event_answers_exec(&m.phase, &StepEvent::WriteOk));

    m.step(StepEvent::ConnectionOk);
    assert!(event_answers_exec(&m.phase, &StepEvent::SchemaOk));
    assert!(!event_answers_exec(&m.phase, &StepEvent::ConnectionOk));

    m.step(StepEvent::SchemaFailed);
    assert!(!event_answers_exec(
        &m.phase,
        &StepEvent::ReadOk {
            name: String::from("frank")
        }
    ));
}

#[test]
fn machine_happy_path_replies_200_with_read_name() {
    let (mut m, first) = RequestMachine::new(String::from("an-id"), String::from("alice"));
    assert!(matches!(first, StepAction::AcquireConnection));

    let a = m.step(StepEvent::ConnectionOk);
    assert!(matches!(a, StepAction::InitSchema));

    let a = m.step(StepEvent::SchemaOk);
    match a {
        StepAction::WriteRow { id, name } => {
            assert_eq!(id, "an-id");
            assert_eq!(name, "alice");
        }
        _ => panic!("expected a write action"),
    }

    let a = m.step(StepEvent::WriteOk);
    match a {
        StepAction::ReadRow { id } => assert_eq!(id, "an-id"),
        _ => panic!("expected a read action"),
    }

    let a = m.step(StepEvent::ReadOk {
        name: String::from("alice"),
    });
    match a {
        StepAction::Reply { resp } => {
            assert_eq!(resp.status, 200);
            assert_eq!(resp.body, Some(String::from("alice")));
        }
        _ => panic!("expected a reply action"),
    }
}

#[test]
fn forced_write_failure_replies_opaque_500() {
    let (mut m, _) = RequestMachine::new(String::from("an-id"), String::from("bob"));
    m.step(StepEvent::ConnectionOk);
    m.step(StepEvent::SchemaOk);

    let a = m.step(StepEvent::WriteFailed);
    match a {
        StepAction::Reply { resp } => {
            assert_eq!(resp.status, 500);
            assert_eq!(resp.body, None);
        }
        _ => panic!("expected a reply action"),
    }
}

#[test]
fn connection_failure_replies_opaque_500() {
    let (mut m, _) = RequestMachine::new(String::from("an-id"), String::from("carol"));
    let a = m.step(StepEvent::ConnectionFailed);
    match a {
        StepAction::Reply { resp } => {
            assert_eq!(resp.status, 500);
            assert_eq!(resp.body, None);
        }
        _ => panic!("expected a reply action"),
    }
}

#[test]
fn schema_failure_replies_opaque_500() {
    let (mut m, _) = RequestMachine::new(String::from("an-id"), String::from("dave"));
    m.step(StepEvent::ConnectionOk);
    let a = m.step(StepEvent::SchemaFailed);
    match a {
        StepAction::Reply { resp } => {
            assert_eq!(resp.status, 500);
            assert_eq!(resp.body, None);
        }
        _ => panic!("expected a reply action"),
    }
}

#[test]
fn read_failure_replies_opaque_500() {
    let (mut m, _) = RequestMachine::new(String::from("an-id"), String::from("erin"));
    m.step(StepEvent::ConnectionOk);
    m.step(StepEvent::SchemaOk);
    m.step(StepEvent::WriteOk);
    let a = m.step(StepEvent::ReadFailed);
    match a {
        StepAction::Reply { resp } => {
            assert_eq!(resp.status, 500);
            assert_eq!(resp.body, None);
        }
        _ => panic!("expected a reply action"),
    }
}
