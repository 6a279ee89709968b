use bifrost::api::resource::Uuid;
use bifrost::svc::manager::{
    ServiceEvent, ServiceId, ServiceManager, ServiceState, SvcAction, SvcError, SvmReply,
    SvmRequest, Transition, SHUTDOWN_TIMEOUT_SECS,
};
use bifrost::svc::policy::{Policy, Retry};
use std::time::Duration;

fn name(n: &str) -> ServiceId {
    ServiceId::Name(n.to_string())
}

fn report(svm: &mut ServiceManager, id: Uuid, state: ServiceState) {
    svm.handle_service_event(ServiceEvent::new(id, state)).unwrap();
}

#[test]
fn svc_register_same_name_twice() {
    let mut svm = ServiceManager::new();
    let (id, action) = svm.register("http").unwrap();
    assert_eq!(action, SvcAction::Spawn(id));
    assert_eq!(
        svm.register("http").unwrap_err(),
        SvcError::ServiceAlreadyExists("http".to_string())
    );
    assert_eq!(
        svm.register_as("http", 99).unwrap_err(),
        SvcError::ServiceAlreadyExists("http".to_string())
    );
    assert_eq!(svm.list(), vec![id]);
    let (other, _) = svm.register("mdns").unwrap();
    assert_ne!(id, other);
    assert_eq!(svm.status(&name("http")).unwrap(), ServiceState::Registered);
    assert_eq!(svm.lookup("http"), Some(id));
    assert_eq!(svm.lookup("z2m"), None);
}

#[test]
fn svc_status_follows_reports() {
    let mut svm = ServiceManager::new();
    let (id, _) = svm.register_as("http", 7).unwrap();
    assert_eq!(id, 7);
    assert_eq!(svm.start(&ServiceId::Id(7)).unwrap(), SvcAction::Send(7, ServiceState::Running));
    // a start is a request: the state changes when the service reports it
    assert_eq!(svm.status(&ServiceId::Id(7)).unwrap(), ServiceState::Registered);
    report(&mut svm, 7, ServiceState::Running);
    assert_eq!(svm.status(&ServiceId::Id(7)).unwrap(), ServiceState::Running);
    assert_eq!(svm.status(&name("http")).unwrap(), ServiceState::Running);
    assert_eq!(svm.get(&name("http")).unwrap().name, "http");
    report(&mut svm, 7, ServiceState::Failed);
    assert_eq!(svm.status(&ServiceId::Id(7)).unwrap(), ServiceState::Failed);
    assert_eq!(
        svm.handle_service_event(ServiceEvent::new(8, ServiceState::Running)).unwrap_err(),
        SvcError::ServiceNotFound(ServiceId::Id(8))
    );
}

#[test]
fn svc_unknown_handles() {
    let mut svm = ServiceManager::new();
    svm.register_as("http", 7).unwrap();
    for handle in [name("nope"), ServiceId::Id(8)] {
        let expected = SvcError::ServiceNotFound(handle.clone());
        assert_eq!(svm.resolve(&handle).unwrap_err(), expected);
        assert_eq!(svm.start(&handle).unwrap_err(), expected);
        assert_eq!(svm.stop(&handle).unwrap_err(), expected);
        assert_eq!(svm.status(&handle).unwrap_err(), expected);
        assert_eq!(svm.get(&handle).unwrap_err(), expected);
        assert_eq!(svm.abort(&handle).unwrap_err(), expected);
    }
    assert_eq!(svm.resolve(&name("http")).unwrap(), 7);
    assert_eq!(svm.resolve(&ServiceId::Id(7)).unwrap(), 7);
}

#[test]
fn svc_stop_is_idempotent() {
    let mut svm = ServiceManager::new();
    svm.register_as("http", 7).unwrap();
    report(&mut svm, 7, ServiceState::Running);
    assert_eq!(
        svm.stop(&name("http")).unwrap(),
        Some(SvcAction::Send(7, ServiceState::Stopped))
    );
    report(&mut svm, 7, ServiceState::Stopped);
    assert_eq!(svm.stop(&name("http")).unwrap(), None);
    assert_eq!(svm.stop(&ServiceId::Id(7)).unwrap(), None);
}

#[test]
fn svc_abort_removes_service_and_name() {
    let mut svm = ServiceManager::new();
    svm.register_as("http", 7).unwrap();
    svm.register_as("mdns", 8).unwrap();
    assert_eq!(svm.abort(&name("http")).unwrap(), SvcAction::Abort(7));
    assert_eq!(svm.list(), vec![8]);
    assert_eq!(svm.lookup("http"), None);
    assert_eq!(svm.lookup("mdns"), Some(8));
    // the name is free again
    assert_eq!(svm.register_as("http", 9).unwrap().0, 9);
    assert_eq!(svm.list_names(), vec![(8, "mdns".to_string()), (9, "http".to_string())]);
    svm.register_as("first", 3).unwrap();
    assert_eq!(svm.list(), vec![3, 8, 9]);
}

#[test]
fn svc_multiple() {
    let mut svm = ServiceManager::new();
    svm.register_as("a", 1).unwrap();
    svm.register_as("b", 2).unwrap();
    svm.register_as("c", 3).unwrap();
    let handles = [name("b"), ServiceId::Id(1), ServiceId::Id(2), name("a")];
    assert_eq!(svm.resolve_multiple(&handles).unwrap(), vec![1, 2]);
    assert_eq!(
        svm.start_multiple(&handles).unwrap(),
        vec![SvcAction::Send(1, ServiceState::Running), SvcAction::Send(2, ServiceState::Running)]
    );
    report(&mut svm, 2, ServiceState::Stopped);
    assert_eq!(
        svm.stop_multiple(&handles).unwrap(),
        vec![SvcAction::Send(1, ServiceState::Stopped)]
    );
    let bad = [name("a"), name("x"), ServiceId::Id(77)];
    assert_eq!(svm.resolve_multiple(&bad).unwrap_err(), SvcError::ServiceNotFound(name("x")));
    assert_eq!(svm.start_multiple(&bad).unwrap_err(), SvcError::ServiceNotFound(name("x")));
    assert_eq!(svm.stop_multiple(&bad).unwrap_err(), SvcError::ServiceNotFound(name("x")));
    assert_eq!(svm.resolve_multiple(&[]).unwrap(), Vec::<Uuid>::new());
}

#[test]
fn svc_wait_for_state_steps() {
    let mut svm = ServiceManager::new();
    svm.register_as("a", 1).unwrap();
    assert_eq!(svm.check_state(1, ServiceState::Running).unwrap(), false);
    assert_eq!(svm.check_state(1, ServiceState::Registered).unwrap(), true);
    report(&mut svm, 1, ServiceState::Running);
    assert_eq!(svm.check_state(1, ServiceState::Running).unwrap(), true);
    report(&mut svm, 1, ServiceState::Failed);
    assert_eq!(svm.check_state(1, ServiceState::Running).unwrap_err(), SvcError::ServiceFailed);
    // a failure that is waited for is no failure of the wait
    assert_eq!(svm.check_state(1, ServiceState::Failed).unwrap(), true);
    assert_eq!(
        svm.check_state(2, ServiceState::Running).unwrap_err(),
        SvcError::ServiceNotFound(ServiceId::Id(2))
    );
}

#[test]
fn svc_wait_for_multiple_steps() {
    let mut svm = ServiceManager::new();
    svm.register_as("a", 1).unwrap();
    svm.register_as("b", 2).unwrap();
    let mut missing = svm.resolve_multiple(&[name("a"), name("b")]).unwrap();
    missing = svm.check_multiple(&missing, ServiceState::Running).unwrap();
    assert_eq!(missing, vec![1, 2]);
    report(&mut svm, 2, ServiceState::Running);
    missing = svm.check_multiple(&missing, ServiceState::Running).unwrap();
    assert_eq!(missing, vec![1]);
    report(&mut svm, 1, ServiceState::Starting);
    missing = svm.check_multiple(&missing, ServiceState::Running).unwrap();
    assert_eq!(missing, vec![1]);
    report(&mut svm, 1, ServiceState::Running);
    missing = svm.check_multiple(&missing, ServiceState::Running).unwrap();
    assert!(missing.is_empty());
}

#[test]
fn svc_wait_for_multiple_fails_with_either() {
    for failing in [1u128, 2] {
        let mut svm = ServiceManager::new();
        svm.register_as("a", 1).unwrap();
        svm.register_as("b", 2).unwrap();
        report(&mut svm, 3 - failing, ServiceState::Running);
        report(&mut svm, failing, ServiceState::Failed);
        assert_eq!(
            svm.check_multiple(&vec![1, 2], ServiceState::Running).unwrap_err(),
            SvcError::ServiceFailed
        );
    }
    let mut svm = ServiceManager::new();
    svm.register_as("a", 1).unwrap();
    assert_eq!(
        svm.check_multiple(&vec![1, 5], ServiceState::Running).unwrap_err(),
        SvcError::ServiceNotFound(ServiceId::Id(5))
    );
}

#[test]
fn svc_shutdown_aborts_what_has_not_stopped() {
    let mut svm = ServiceManager::new();
    svm.register_as("a", 1).unwrap();
    svm.register_as("b", 2).unwrap();
    svm.register_as("hung", 3).unwrap();
    for id in [1, 2, 3] {
        report(&mut svm, id, ServiceState::Running);
    }
    assert!(!svm.has_shut_down());

    let (reply, actions) = svm.handle_svm_request(SvmRequest::Shutdown);
    let ids = match reply {
        SvmReply::ShuttingDown(Ok(ids)) => ids,
        other => panic!("unexpected reply {other:?}"),
    };
    assert_eq!(ids, vec![1, 2, 3]);
    assert_eq!(
        actions,
        vec![
            SvcAction::Send(1, ServiceState::Stopped),
            SvcAction::Send(2, ServiceState::Stopped),
            SvcAction::Send(3, ServiceState::Stopped),
        ]
    );
    assert!(!svm.has_shut_down());

    // two services cooperate, one does not
    report(&mut svm, 1, ServiceState::Stopped);
    report(&mut svm, 2, ServiceState::Stopped);
    let missing = svm.check_multiple(&ids, ServiceState::Stopped).unwrap();
    assert_eq!(missing, vec![3]);

    // the time is up
    assert_eq!(SHUTDOWN_TIMEOUT_SECS, 3);
    assert_eq!(svm.finish_shutdown(), vec![SvcAction::Abort(3)]);
    assert!(svm.has_shut_down());
    assert_eq!(svm.list(), vec![1, 2]);
    assert_eq!(svm.status(&ServiceId::Id(1)).unwrap(), ServiceState::Stopped);
    assert_eq!(svm.status(&name("b")).unwrap(), ServiceState::Stopped);
    assert_eq!(svm.status(&name("hung")).unwrap_err(), SvcError::ServiceNotFound(name("hung")));
    // the name of the hung service is gone, the others are found as before
    assert_eq!(svm.lookup("hung"), None);
    assert_eq!(
        svm.resolve(&ServiceId::Id(3)).unwrap_err(),
        SvcError::ServiceNotFound(ServiceId::Id(3))
    );
    assert_eq!(svm.lookup("a"), Some(1));
    assert_eq!(svm.lookup("b"), Some(2));
    assert_eq!(svm.list_names(), vec![(1, "a".to_string()), (2, "b".to_string())]);
}

#[test]
fn svc_shutdown_of_stopped_services_aborts_nothing() {
    let mut svm = ServiceManager::new();
    svm.register_as("a", 1).unwrap();
    report(&mut svm, 1, ServiceState::Stopped);
    let (ids, actions) = svm.begin_shutdown();
    assert_eq!(ids, vec![1]);
    assert!(actions.is_empty());
    assert!(svm.finish_shutdown().is_empty());
    assert!(svm.has_shut_down());
    assert_eq!(svm.list(), vec![1]);
}

#[test]
fn svc_requests() {
    let mut svm = ServiceManager::new();
    let (reply, actions) = svm.handle_svm_request(SvmRequest::Register("http".to_string()));
    let id = match reply {
        SvmReply::Registered(Ok(id)) => id,
        other => panic!("unexpected reply {other:?}"),
    };
    assert_eq!(actions, vec![SvcAction::Spawn(id)]);

    let (reply, actions) = svm.handle_svm_request(SvmRequest::Register("http".to_string()));
    assert!(matches!(
        reply,
        SvmReply::Registered(Err(SvcError::ServiceAlreadyExists(n))) if n == "http"
    ));
    assert!(actions.is_empty());

    let (reply, actions) = svm.handle_svm_request(SvmRequest::Start(name("http")));
    assert!(matches!(reply, SvmReply::Done(Ok(()))));
    assert_eq!(actions, vec![SvcAction::Send(id, ServiceState::Running)]);

    let (reply, actions) = svm.handle_svm_request(SvmRequest::Start(name("x")));
    assert!(matches!(reply, SvmReply::Done(Err(SvcError::ServiceNotFound(h))) if h == name("x")));
    assert!(actions.is_empty());

    report(&mut svm, id, ServiceState::Running);
    let (reply, actions) = svm.handle_svm_request(SvmRequest::Status(ServiceId::Id(id)));
    assert!(matches!(reply, SvmReply::Status(Ok(ServiceState::Running))));
    assert!(actions.is_empty());

    let (reply, _) = svm.handle_svm_request(SvmRequest::List);
    assert!(matches!(reply, SvmReply::List(list) if list == vec![(id, "http".to_string())]));

    let (reply, actions) = svm.handle_svm_request(SvmRequest::Stop(ServiceId::Id(id)));
    assert!(matches!(reply, SvmReply::Done(Ok(()))));
    assert_eq!(actions, vec![SvcAction::Send(id, ServiceState::Stopped)]);
    report(&mut svm, id, ServiceState::Stopped);
    let (reply, actions) = svm.handle_svm_request(SvmRequest::Stop(ServiceId::Id(id)));
    assert!(matches!(reply, SvmReply::Done(Ok(()))));
    assert!(actions.is_empty());
}

#[test]
fn svc_retry_policy() {
    assert!(!Policy::new().should_retry(0));
    assert!(!Policy::default().should_retry(0));
    let limited = Policy::new().with_retry(Retry::Limit(3));
    assert!(limited.should_retry(0));
    assert!(limited.should_retry(2));
    assert!(!limited.should_retry(3));
    assert!(!limited.should_retry(u32::MAX));
    assert!(!Policy::new().with_retry(Retry::Limit(0)).should_retry(0));
    let forever = Policy::new().with_retry(Retry::Forever);
    assert!(forever.should_retry(0));
    assert!(forever.should_retry(u32::MAX));
    assert!(!forever.with_retry(Retry::No).should_retry(1));
}

#[test]
fn svc_policy_delay() {
    let policy = Policy::new();
    assert_eq!(policy.delay, None);
    let policy = policy.with_delay(Duration::from_millis(250)).with_retry(Retry::Forever);
    assert_eq!(policy.delay, Some(Duration::from_millis(250)));
    assert!(policy.should_retry(9));
    let policy = policy.without_delay();
    assert_eq!(policy.delay, None);
    assert!(policy.should_retry(9));
}

#[test]
fn svc_state_transitions() {
    let states = [
        ServiceState::Registered,
        ServiceState::Starting,
        ServiceState::Running,
        ServiceState::Stopping,
        ServiceState::Stopped,
        ServiceState::Failed,
    ];
    for state in states {
        let start = match state {
            ServiceState::Registered | ServiceState::Stopped => Some(ServiceState::Running),
            _ => None,
        };
        let running = state == ServiceState::Running;
        let stop = if running { Some(ServiceState::Stopped) } else { None };
        let error = if running { Some(ServiceState::Failed) } else { None };
        assert_eq!(state.next(Transition::Start), start);
        assert_eq!(state.next(Transition::Stop), stop);
        assert_eq!(state.next(Transition::Error), error);
    }
}
