use vstd::prelude::*;

use crate::error::Error;
use crate::limit::{limit_applied, limit_plan, raised, raised_core_limit, CoreLimit};

verus! {

/// Where a registration stands. The caller performs each action that a step
/// returns and reports its outcome as the next event.
#[derive(Debug, Clone, Copy, PartialEq, Eq, Structural)]
pub enum RegistrationStage {
    /// Waiting for the core-file size limit to be read.
    ReadingLimit,
    /// Waiting for the raised limit to be written.
    WritingLimit,
    /// Waiting for the dumping panic hook to be installed.
    Installing,
    /// Done; no further event is taken.
    Finished,
}

/// The outcome of an action, as the caller reports it.
#[derive(Debug, Clone, Copy)]
pub enum RegistrationEvent {
    /// The limit was read, or the read failed with an error number.
    LimitRead(Result<CoreLimit, i32>),
    /// The limit was written, or the write failed with an error number.
    LimitWritten(Result<(), i32>),
    /// The previous panic hook was taken and the dumping one put in its place.
    HandlerInstalled,
}

/// What the caller is to do next.
#[derive(Debug, Clone, Copy)]
pub enum RegistrationAction {
    /// Read the core-file size limit.
    ReadLimit,
    /// Write this core-file size limit.
    WriteLimit(CoreLimit),
    /// Take the current panic hook and install one that runs it, then dumps core.
    InstallHandler,
    /// Registration is over, with this result.
    Finish(Result<(), Error>),
}

/// The events that a stage takes.
pub open spec fn registration_accepts(s: RegistrationStage, ev: RegistrationEvent) -> bool {
    match (s, ev) {
        (RegistrationStage::ReadingLimit, RegistrationEvent::LimitRead(_)) => true,
        (RegistrationStage::WritingLimit, RegistrationEvent::LimitWritten(_)) => true,
        (RegistrationStage::Installing, RegistrationEvent::HandlerInstalled) => true,
        _ => false,
    }
}

/// The transition of a registration: the next stage and the next action.
/// The hook is installed only once the limit has been read, found non-zero
/// and written back raised; any failure before that ends the registration.
pub open spec fn registration_next(s: RegistrationStage, ev: RegistrationEvent) -> (
    RegistrationStage,
    RegistrationAction,
) {
    match ev {
        RegistrationEvent::LimitRead(read) => match limit_plan(read) {
            Ok(l) => (RegistrationStage::WritingLimit, RegistrationAction::WriteLimit(l)),
            Err(e) => (RegistrationStage::Finished, RegistrationAction::Finish(Err(e))),
        },
        RegistrationEvent::LimitWritten(Ok(())) => (
            RegistrationStage::Installing,
            RegistrationAction::InstallHandler,
        ),
        RegistrationEvent::LimitWritten(Err(code)) => (
            RegistrationStage::Finished,
            RegistrationAction::Finish(Err(Error::ResourceUpdate(code))),
        ),
        RegistrationEvent::HandlerInstalled => (
            RegistrationStage::Finished,
            RegistrationAction::Finish(Ok(())),
        ),
    }
}

/// Begins a registration: the limit is read first.
pub fn start_registration() -> (r: (RegistrationStage, RegistrationAction))
    ensures
        r == (RegistrationStage::ReadingLimit, RegistrationAction::ReadLimit),
{
    (RegistrationStage::ReadingLimit, RegistrationAction::ReadLimit)
}

impl RegistrationStage {
    /// Whether this stage takes the event.
    pub fn accepts(&self, ev: &RegistrationEvent) -> (r: bool)
        ensures
            r == registration_accepts(*self, *ev),
    {
        match (self, ev) {
            (RegistrationStage::ReadingLimit, RegistrationEvent::LimitRead(_)) => true,
            (RegistrationStage::WritingLimit, RegistrationEvent::LimitWritten(_)) => true,
            (RegistrationStage::Installing, RegistrationEvent::HandlerInstalled) => true,
            _ => false,
        }
    }

    /// Takes the outcome of the last action and decides the next one.
    pub fn step(self, ev: RegistrationEvent) -> (r: (RegistrationStage, RegistrationAction))
        requires
            registration_accepts(self, ev),
        ensures
            r == registration_next(self, ev),
    {
        match ev {
            RegistrationEvent::LimitRead(read) => match raised_core_limit(read) {
                Ok(l) => (RegistrationStage::WritingLimit, RegistrationAction::WriteLimit(l)),
                Err(e) => (RegistrationStage::Finished, RegistrationAction::Finish(Err(e))),
            },
            RegistrationEvent::LimitWritten(write) => match limit_applied(write) {
                Ok(()) => (RegistrationStage::Installing, RegistrationAction::InstallHandler),
                Err(e) => (RegistrationStage::Finished, RegistrationAction::Finish(Err(e))),
            },
            RegistrationEvent::HandlerInstalled => (
                RegistrationStage::Finished,
                RegistrationAction::Finish(Ok(())),
            ),
        }
    }
}

} // verus!

verus! {

/// A finished registration takes no further event, so it can no longer
/// install a hook.
pub proof fn lemma_finished_takes_nothing(ev: RegistrationEvent)
    ensures
        !registration_accepts(RegistrationStage::Finished, ev),
{
}

/// Whatever the limit read, a zero hard limit ends the registration with
/// `LimitUnavailable` and no hook is installed; any other hard limit leads to
/// writing the soft limit raised to it.
pub proof fn lemma_zero_hard_limit_refused(l: CoreLimit)
    ensures
        l.hard == 0 ==> registration_next(
            RegistrationStage::ReadingLimit,
            RegistrationEvent::LimitRead(Ok(l)),
        ) == (RegistrationStage::Finished, RegistrationAction::Finish(Err(Error::LimitUnavailable))),
        l.hard != 0 ==> registration_next(
            RegistrationStage::ReadingLimit,
            RegistrationEvent::LimitRead(Ok(l)),
        ) == (RegistrationStage::WritingLimit, RegistrationAction::WriteLimit(
            CoreLimit { soft: l.hard, hard: l.hard },
        )),
{
}

/// A failed read or write of the limit ends the registration with that
/// failure, before any hook is installed.
pub proof fn lemma_limit_failure_keeps_hook(code: i32)
    ensures
        registration_next(RegistrationStage::ReadingLimit, RegistrationEvent::LimitRead(Err(code)))
            == (RegistrationStage::Finished, RegistrationAction::Finish(
            Err(Error::ResourceQuery(code)),
        )),
        registration_next(RegistrationStage::WritingLimit, RegistrationEvent::LimitWritten(Err(code)))
            == (RegistrationStage::Finished, RegistrationAction::Finish(
            Err(Error::ResourceUpdate(code)),
        )),
{
}

/// The hook is installed only right after a successful write of the limit,
/// and the limit is written only after a read that found a non-zero hard
/// limit, raised to it.
pub proof fn lemma_install_only_after_raise(s: RegistrationStage, ev: RegistrationEvent)
    requires
        registration_accepts(s, ev),
    ensures
        registration_next(s, ev).1 == RegistrationAction::InstallHandler ==> s
            == RegistrationStage::WritingLimit && ev == RegistrationEvent::LimitWritten(Ok(())),
        registration_next(s, ev).0 == RegistrationStage::WritingLimit ==> s
            == RegistrationStage::ReadingLimit && exists|l: CoreLimit|
            l.hard != 0 && ev == RegistrationEvent::LimitRead(Ok(l)) && registration_next(s, ev).1
                == RegistrationAction::WriteLimit(raised(l)),
{
    if let RegistrationEvent::LimitWritten(Ok(u)) = ev {
        assert(u == ());
    }
    if registration_next(s, ev).0 == RegistrationStage::WritingLimit {
        if let RegistrationEvent::LimitRead(Ok(l)) = ev {
            assert(l.hard != 0 && ev == RegistrationEvent::LimitRead(Ok(l)));
        }
    }
}

} // verus!
