use vstd::prelude::*;

use crate::error::Error;

verus! {

/// Where one run of the dumping panic hook stands. `P` is the caller's
/// path type: the library only hands paths back, it never looks inside.
#[derive(Debug)]
pub enum DumpStage<P> {
    /// Waiting for the previous panic hook to finish; `scratch` is where the
    /// core file should go.
    RunningPrevious { scratch: P },
    /// Waiting for the working directory to be read.
    QueryingDir { scratch: P },
    /// Waiting for the change into the scratch directory; `saved` is the
    /// working directory from before.
    ChangingDir { saved: P },
    /// Waiting for the process identifier.
    ReadingPid { saved: P },
    /// Waiting for the dump signal to be sent.
    Signalling { saved: P },
    /// Waiting for the working directory to be put back after `error`.
    Restoring { error: Error },
    /// Done; no further event is taken.
    Finished,
}

/// The outcome of an action, as the caller reports it.
#[derive(Debug)]
pub enum DumpEvent<P> {
    /// The previous panic hook has returned.
    PreviousRan,
    /// The working directory, or the error number of the failed read.
    DirQueried(Result<P, i32>),
    /// The working directory was changed, or the change failed.
    DirChanged(Result<(), i32>),
    /// The identifier of the current process.
    PidRead(u32),
    /// The signal was sent, or sending it failed.
    SignalSent(Result<(), i32>),
    /// The working directory was put back, or that failed.
    DirRestored(Result<(), i32>),
}

/// What the caller is to do next.
#[derive(Debug)]
pub enum DumpAction<P> {
    /// Run the panic hook that was installed before this one.
    RunPrevious,
    /// Read the current working directory.
    QueryDir,
    /// Make this directory the working directory.
    ChangeDir(P),
    /// Read the identifier of the current process.
    ReadPid,
    /// Send the quit-and-dump signal to the process with this identifier.
    SendSignal(i32),
    /// Make this directory the working directory again; the outcome does
    /// not change the result.
    RestoreDir(P),
    /// The run is over with this result (a successful signal normally ends
    /// the process before this is seen).
    Finish(Result<(), Error>),
}

/// The largest process identifier that the signal call can take.
pub const PID_MAX: u32 = 0x7fff_ffff;

/// The process identifier as the signal call takes it, when it fits.
pub open spec fn pid_conversion(pid: u32) -> Result<i32, Error> {
    if pid <= PID_MAX {
        Ok(pid as i32)
    } else {
        Err(Error::IntegerConversion(pid))
    }
}

/// Converts the process identifier to the signed type of the signal call;
/// one that does not fit is an error, never truncated.
pub fn signal_pid(pid: u32) -> (r: Result<i32, Error>)
    ensures
        r == pid_conversion(pid),
{
    if pid <= PID_MAX {
        Ok(pid as i32)
    } else {
        Err(Error::IntegerConversion(pid))
    }
}

/// The events that a stage takes.
pub open spec fn dump_accepts<P>(s: DumpStage<P>, ev: DumpEvent<P>) -> bool {
    match (s, ev) {
        (DumpStage::RunningPrevious { .. }, DumpEvent::PreviousRan) => true,
        (DumpStage::QueryingDir { .. }, DumpEvent::DirQueried(_)) => true,
        (DumpStage::ChangingDir { .. }, DumpEvent::DirChanged(_)) => true,
        (DumpStage::ReadingPid { .. }, DumpEvent::PidRead(_)) => true,
        (DumpStage::Signalling { .. }, DumpEvent::SignalSent(_)) => true,
        (DumpStage::Restoring { .. }, DumpEvent::DirRestored(_)) => true,
        _ => false,
    }
}

/// The transition of one run of the hook: the previous hook first, then the
/// working directory is saved and changed to the scratch directory, then the
/// process signals itself. Once the directory was changed, a failure puts
/// the saved directory back before the error is returned, whatever that
/// restoring gives.
pub open spec fn dump_next<P>(s: DumpStage<P>, ev: DumpEvent<P>) -> (DumpStage<P>, DumpAction<P>)
    recommends
        dump_accepts(s, ev),
{
    match (s, ev) {
        (DumpStage::RunningPrevious { scratch }, DumpEvent::PreviousRan) => (
            DumpStage::QueryingDir { scratch },
            DumpAction::QueryDir,
        ),
        (DumpStage::QueryingDir { scratch }, DumpEvent::DirQueried(Ok(saved))) => (
            DumpStage::ChangingDir { saved },
            DumpAction::ChangeDir(scratch),
        ),
        (DumpStage::QueryingDir { .. }, DumpEvent::DirQueried(Err(code))) => (
            DumpStage::Finished,
            DumpAction::Finish(Err(Error::DirectoryQuery(code))),
        ),
        (DumpStage::ChangingDir { saved }, DumpEvent::DirChanged(Ok(()))) => (
            DumpStage::ReadingPid { saved },
            DumpAction::ReadPid,
        ),
        (DumpStage::ChangingDir { .. }, DumpEvent::DirChanged(Err(code))) => (
            DumpStage::Finished,
            DumpAction::Finish(Err(Error::DirectoryChange(code))),
        ),
        (DumpStage::ReadingPid { saved }, DumpEvent::PidRead(pid)) => match pid_conversion(pid) {
            Ok(p) => (DumpStage::Signalling { saved }, DumpAction::SendSignal(p)),
            Err(error) => (DumpStage::Restoring { error }, DumpAction::RestoreDir(saved)),
        },
        (DumpStage::Signalling { .. }, DumpEvent::SignalSent(Ok(()))) => (
            DumpStage::Finished,
            DumpAction::Finish(Ok(())),
        ),
        (DumpStage::Signalling { saved }, DumpEvent::SignalSent(Err(code))) => (
            DumpStage::Restoring { error: Error::SignalDelivery(code) },
            DumpAction::RestoreDir(saved),
        ),
        (DumpStage::Restoring { error }, DumpEvent::DirRestored(_)) => (
            DumpStage::Finished,
            DumpAction::Finish(Err(error)),
        ),
        _ => (DumpStage::Finished, DumpAction::Finish(Ok(()))),
    }
}

/// Begins a run of the hook for a fault: the previous hook runs first.
pub fn start_dump<P>(scratch: P) -> (r: (DumpStage<P>, DumpAction<P>))
    ensures
        r == (DumpStage::RunningPrevious { scratch }, DumpAction::<P>::RunPrevious),
{
    (DumpStage::RunningPrevious { scratch }, DumpAction::RunPrevious)
}

impl<P> DumpStage<P> {
    /// Whether this stage takes the event.
    pub fn accepts(&self, ev: &DumpEvent<P>) -> (r: bool)
        ensures
            r == dump_accepts(*self, *ev),
    {
        match (self, ev) {
            (DumpStage::RunningPrevious { .. }, DumpEvent::PreviousRan) => true,
            (DumpStage::QueryingDir { .. }, DumpEvent::DirQueried(_)) => true,
            (DumpStage::ChangingDir { .. }, DumpEvent::DirChanged(_)) => true,
            (DumpStage::ReadingPid { .. }, DumpEvent::PidRead(_)) => true,
            (DumpStage::Signalling { .. }, DumpEvent::SignalSent(_)) => true,
            (DumpStage::Restoring { .. }, DumpEvent::DirRestored(_)) => true,
            _ => false,
        }
    }

    /// Takes the outcome of the last action and decides the next one.
    pub fn step(self, ev: DumpEvent<P>) -> (r: (DumpStage<P>, DumpAction<P>))
        requires
            dump_accepts(self, ev),
        ensures
            r == dump_next(self, ev),
    {
        match (self, ev) {
            (DumpStage::RunningPrevious { scratch }, DumpEvent::PreviousRan) => (
                DumpStage::QueryingDir { scratch },
                DumpAction::QueryDir,
            ),
            (DumpStage::QueryingDir { scratch }, DumpEvent::DirQueried(queried)) => match queried {
                Ok(saved) => (DumpStage::ChangingDir { saved }, DumpAction::ChangeDir(scratch)),
                Err(code) => (
                    DumpStage::Finished,
                    DumpAction::Finish(Err(Error::DirectoryQuery(code))),
                ),
            },
            (DumpStage::ChangingDir { saved }, DumpEvent::DirChanged(changed)) => match changed {
                Ok(()) => (DumpStage::ReadingPid { saved }, DumpAction::ReadPid),
                Err(code) => (
                    DumpStage::Finished,
                    DumpAction::Finish(Err(Error::DirectoryChange(code))),
                ),
            },
            (DumpStage::ReadingPid { saved }, DumpEvent::PidRead(pid)) => match signal_pid(pid) {
                Ok(p) => (DumpStage::Signalling { saved }, DumpAction::SendSignal(p)),
                Err(error) => (DumpStage::Restoring { error }, DumpAction::RestoreDir(saved)),
            },
            (DumpStage::Signalling { saved }, DumpEvent::SignalSent(sent)) => match sent {
                Ok(()) => (DumpStage::Finished, DumpAction::Finish(Ok(()))),
                Err(code) => (
                    DumpStage::Restoring { error: Error::SignalDelivery(code) },
                    DumpAction::RestoreDir(saved),
                ),
            },
            // The outcome of restoring is deliberately dropped: the hook runs
            // while the process is going down, and nothing better can be done.
            (DumpStage::Restoring { error }, DumpEvent::DirRestored(_)) => (
                DumpStage::Finished,
                DumpAction::Finish(Err(error)),
            ),
            _ => (DumpStage::Finished, DumpAction::Finish(Ok(()))),
        }
    }
}

} // verus!

verus! {

/// The previous hook runs first and only once in a run: a run begins by
/// asking for it, waits for nothing but its return, and no later step asks
/// for it again.
pub proof fn lemma_previous_hook_first<P>(scratch: P, s: DumpStage<P>, ev: DumpEvent<P>)
    requires
        dump_accepts(s, ev),
    ensures
        forall|e: DumpEvent<P>|
            dump_accepts(DumpStage::RunningPrevious { scratch }, e) <==> e == DumpEvent::<P>::PreviousRan,
        dump_next(s, ev).1 != DumpAction::<P>::RunPrevious,
{
}

/// A failed change into the scratch directory ends the run with
/// `DirectoryChange` and no signal is sent; nothing further is taken.
pub proof fn lemma_failed_chdir_sends_nothing<P>(saved: P, code: i32, ev: DumpEvent<P>)
    ensures
        dump_next(DumpStage::ChangingDir { saved }, DumpEvent::DirChanged(Err(code))) == (
            DumpStage::<P>::Finished,
            DumpAction::<P>::Finish(Err(Error::DirectoryChange(code))),
        ),
        !dump_accepts(DumpStage::<P>::Finished, ev),
{
}

/// The signal is sent only from the stage reached after the change into the
/// scratch directory succeeded, and to the process identifier unchanged.
pub proof fn lemma_signal_only_after_chdir<P>(s: DumpStage<P>, ev: DumpEvent<P>, p: i32)
    requires
        dump_accepts(s, ev),
        dump_next(s, ev).1 == DumpAction::<P>::SendSignal(p),
    ensures
        s is ReadingPid,
        ev == DumpEvent::<P>::PidRead(p as u32),
        0 <= p,
{
}

/// The stage that sends the signal is entered only through a successful
/// change of directory.
pub proof fn lemma_pid_read_only_after_chdir<P>(s: DumpStage<P>, ev: DumpEvent<P>)
    requires
        dump_accepts(s, ev),
        dump_next(s, ev).0 is ReadingPid,
    ensures
        s is ChangingDir,
        ev == DumpEvent::<P>::DirChanged(Ok(())),
{
    if let DumpEvent::DirChanged(Ok(u)) = ev {
        assert(u == ());
    }
}

/// When the signal cannot be delivered, the working directory read before
/// the change is put back, and the delivery error is returned whatever the
/// restoring gave.
pub proof fn lemma_failed_signal_restores_dir<P>(
    scratch: P,
    saved: P,
    pid: u32,
    code: i32,
    restored: Result<(), i32>,
)
    requires
        pid <= PID_MAX,
    ensures
        ({
            let r1 = dump_next(DumpStage::QueryingDir { scratch }, DumpEvent::DirQueried(Ok(saved)));
            let r2 = dump_next(r1.0, DumpEvent::DirChanged(Ok(())));
            let r3 = dump_next(r2.0, DumpEvent::PidRead(pid));
            let r4 = dump_next(r3.0, DumpEvent::SignalSent(Err(code)));
            let r5 = dump_next(r4.0, DumpEvent::DirRestored(restored));
            &&& r1.1 == DumpAction::ChangeDir(scratch)
            &&& r2.1 == DumpAction::<P>::ReadPid
            &&& r3.1 == DumpAction::<P>::SendSignal(pid as i32)
            &&& r4.1 == DumpAction::RestoreDir(saved)
            &&& r5 == (
                DumpStage::<P>::Finished,
                DumpAction::<P>::Finish(Err(Error::SignalDelivery(code))),
            )
        }),
{
}

/// A process identifier above the largest that the signal call takes is
/// reported as `IntegerConversion`, never wrapped round; one that fits is
/// handed on with its value. After the directory change the failure puts
/// the saved directory back and sends no signal.
pub proof fn lemma_pid_out_of_range<P>(saved: P, pid: u32, restored: Result<(), i32>)
    ensures
        pid > PID_MAX <==> pid_conversion(pid) == Err::<i32, Error>(Error::IntegerConversion(pid)),
        pid <= PID_MAX ==> pid_conversion(pid) == Ok::<i32, Error>(pid as i32) && pid_conversion(
            pid,
        )->Ok_0 == pid,
        pid > PID_MAX ==> ({
            let r1 = dump_next(DumpStage::ReadingPid { saved }, DumpEvent::PidRead(pid));
            let r2 = dump_next(r1.0, DumpEvent::DirRestored(restored));
            &&& r1.1 == DumpAction::RestoreDir(saved)
            &&& r2 == (
                DumpStage::<P>::Finished,
                DumpAction::<P>::Finish(Err(Error::IntegerConversion(pid))),
            )
        }),
{
}

} // verus!
