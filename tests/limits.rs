use coredump::error::Error;
use coredump::limit::{check, limit_applied, raised_core_limit, CoreLimit};
use coredump::registration::{
    start_registration, RegistrationAction, RegistrationEvent, RegistrationStage,
};

#[test]
fn check_maps_error_value_to_code() {
    assert_eq!(check(-1, -1, 13), Err(13));
    assert_eq!(check(0, -1, 13), Ok(()));
    assert_eq!(check(5, -1, 0), Ok(()));
}

#[test]
fn soft_limit_is_raised_to_hard() {
    let read = Ok(CoreLimit { soft: 0, hard: 4096 });
    assert_eq!(raised_core_limit(read), Ok(CoreLimit { soft: 4096, hard: 4096 }));
    let unlimited = Ok(CoreLimit { soft: 0, hard: u64::MAX });
    assert_eq!(raised_core_limit(unlimited), Ok(CoreLimit { soft: u64::MAX, hard: u64::MAX }));
}

#[test]
fn zero_hard_limit_is_unavailable() {
    assert_eq!(raised_core_limit(Ok(CoreLimit { soft: 0, hard: 0 })), Err(Error::LimitUnavailable));
}

#[test]
fn failed_limit_read_is_query_error() {
    assert_eq!(raised_core_limit(Err(1)), Err(Error::ResourceQuery(1)));
}

#[test]
fn failed_limit_write_is_update_error() {
    assert_eq!(limit_applied(Err(1)), Err(Error::ResourceUpdate(1)));
    assert_eq!(limit_applied(Ok(())), Ok(()));
}

#[test]
fn registration_runs_read_write_install() {
    let (stage, action) = start_registration();
    assert_eq!(stage, RegistrationStage::ReadingLimit);
    assert!(matches!(action, RegistrationAction::ReadLimit));

    let ev = RegistrationEvent::LimitRead(Ok(CoreLimit { soft: 0, hard: 100 }));
    assert!(stage.accepts(&ev));
    let (stage, action) = stage.step(ev);
    assert_eq!(stage, RegistrationStage::WritingLimit);
    assert!(matches!(
        action,
        RegistrationAction::WriteLimit(CoreLimit { soft: 100, hard: 100 })
    ));

    let (stage, action) = stage.step(RegistrationEvent::LimitWritten(Ok(())));
    assert_eq!(stage, RegistrationStage::Installing);
    assert!(matches!(action, RegistrationAction::InstallHandler));

    let (stage, action) = stage.step(RegistrationEvent::HandlerInstalled);
    assert_eq!(stage, RegistrationStage::Finished);
    assert!(matches!(action, RegistrationAction::Finish(Ok(()))));
    assert!(!stage.accepts(&RegistrationEvent::HandlerInstalled));
}

#[test]
fn registration_with_zero_hard_limit_installs_nothing() {
    let (stage, _) = start_registration();
    let (stage, action) =
        stage.step(RegistrationEvent::LimitRead(Ok(CoreLimit { soft: 0, hard: 0 })));
    assert_eq!(stage, RegistrationStage::Finished);
    assert!(matches!(action, RegistrationAction::Finish(Err(Error::LimitUnavailable))));
    assert!(!stage.accepts(&RegistrationEvent::LimitWritten(Ok(()))));
}

#[test]
fn registration_stops_on_limit_failures() {
    let (stage, _) = start_registration();
    let (stage, action) = stage.step(RegistrationEvent::LimitRead(Err(22)));
    assert_eq!(stage, RegistrationStage::Finished);
    assert!(matches!(action, RegistrationAction::Finish(Err(Error::ResourceQuery(22)))));

    let (stage, action) = RegistrationStage::WritingLimit.step(RegistrationEvent::LimitWritten(Err(1)));
    assert_eq!(stage, RegistrationStage::Finished);
    assert!(matches!(action, RegistrationAction::Finish(Err(Error::ResourceUpdate(1)))));
}

#[test]
fn registration_rejects_out_of_order_events() {
    assert!(!RegistrationStage::ReadingLimit.accepts(&RegistrationEvent::HandlerInstalled));
    assert!(!RegistrationStage::Installing.accepts(&RegistrationEvent::LimitWritten(Ok(()))));
}
