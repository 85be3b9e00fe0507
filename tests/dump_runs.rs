use coredump::error::Error;
use coredump::trigger::{signal_pid, start_dump, DumpAction, DumpEvent, DumpStage, PID_MAX};

fn through_chdir(saved: &'static str) -> DumpStage<&'static str> {
    let (stage, action) = start_dump("/tmp");
    assert!(matches!(action, DumpAction::RunPrevious));
    let (stage, action) = stage.step(DumpEvent::PreviousRan);
    assert!(matches!(action, DumpAction::QueryDir));
    let (stage, action) = stage.step(DumpEvent::DirQueried(Ok(saved)));
    assert!(matches!(action, DumpAction::ChangeDir("/tmp")));
    let (stage, action) = stage.step(DumpEvent::DirChanged(Ok(())));
    assert!(matches!(action, DumpAction::ReadPid));
    stage
}

#[test]
fn dump_run_signals_own_pid() {
    let stage = through_chdir("/home/user");
    let (stage, action) = stage.step(DumpEvent::PidRead(4242));
    assert!(matches!(action, DumpAction::SendSignal(4242)));
    let (stage, action) = stage.step(DumpEvent::SignalSent(Ok(())));
    assert!(matches!(stage, DumpStage::Finished));
    assert!(matches!(action, DumpAction::Finish(Ok(()))));
}

#[test]
fn previous_hook_runs_before_anything_else() {
    let (stage, action) = start_dump("/tmp");
    assert!(matches!(action, DumpAction::RunPrevious));
    assert!(!stage.accepts(&DumpEvent::DirQueried(Ok("/"))));
    assert!(!stage.accepts(&DumpEvent::PidRead(1)));
    assert!(stage.accepts(&DumpEvent::PreviousRan));
}

#[test]
fn failed_dir_query_is_reported() {
    let (stage, _) = start_dump("/tmp");
    let (stage, _) = stage.step(DumpEvent::PreviousRan);
    let (stage, action) = stage.step(DumpEvent::DirQueried(Err(2)));
    assert!(matches!(stage, DumpStage::Finished));
    assert!(matches!(action, DumpAction::Finish(Err(Error::DirectoryQuery(2)))));
}

#[test]
fn failed_chdir_sends_no_signal() {
    let (stage, _) = start_dump("/nonexistent");
    let (stage, _) = stage.step(DumpEvent::PreviousRan);
    let (stage, _) = stage.step(DumpEvent::DirQueried(Ok("/home/user")));
    let (stage, action) = stage.step(DumpEvent::DirChanged(Err(13)));
    assert!(matches!(action, DumpAction::Finish(Err(Error::DirectoryChange(13)))));
    assert!(!stage.accepts(&DumpEvent::PidRead(1)));
    assert!(!stage.accepts(&DumpEvent::SignalSent(Ok(()))));
}

#[test]
fn failed_signal_restores_saved_dir() {
    let stage = through_chdir("/home/user");
    let (stage, _) = stage.step(DumpEvent::PidRead(77));
    let (stage, action) = stage.step(DumpEvent::SignalSent(Err(1)));
    assert!(matches!(action, DumpAction::RestoreDir("/home/user")));
    let (stage, action) = stage.step(DumpEvent::DirRestored(Err(2)));
    assert!(matches!(stage, DumpStage::Finished));
    assert!(matches!(action, DumpAction::Finish(Err(Error::SignalDelivery(1)))));
}

#[test]
fn restore_outcome_does_not_change_result() {
    let stage = through_chdir("/srv");
    let (stage, _) = stage.step(DumpEvent::PidRead(77));
    let (stage, _) = stage.step(DumpEvent::SignalSent(Err(3)));
    let (_, action) = stage.step(DumpEvent::DirRestored(Ok(())));
    assert!(matches!(action, DumpAction::Finish(Err(Error::SignalDelivery(3)))));
}

#[test]
fn pid_conversion_boundary() {
    assert_eq!(PID_MAX, i32::MAX as u32);
    assert_eq!(signal_pid(1), Ok(1));
    assert_eq!(signal_pid(PID_MAX), Ok(i32::MAX));
    assert_eq!(signal_pid(PID_MAX + 1), Err(Error::IntegerConversion(PID_MAX + 1)));
    assert_eq!(signal_pid(u32::MAX), Err(Error::IntegerConversion(u32::MAX)));
}

#[test]
fn oversized_pid_restores_dir_without_signal() {
    let stage = through_chdir("/home/user");
    let (stage, action) = stage.step(DumpEvent::PidRead(u32::MAX));
    assert!(matches!(action, DumpAction::RestoreDir("/home/user")));
    assert!(!stage.accepts(&DumpEvent::SignalSent(Ok(()))));
    let (_, action) = stage.step(DumpEvent::DirRestored(Ok(())));
    assert!(matches!(action, DumpAction::Finish(Err(Error::IntegerConversion(u32::MAX)))));
}
