use vstd::prelude::*;

verus! {

/// What a fault runs through the installed hooks, in order: the hook that
/// was in place before any registration, or one dump run of this library.
#[derive(Debug, Clone, Copy, PartialEq, Eq, Structural)]
pub enum HookStep {
    Original,
    Dump,
}

/// The steps that a fault runs after `registrations` registrations. Each
/// registration takes the hook in place and installs one that first runs
/// it in full (the `RunPrevious` action of a dump run) and then dumps.
pub open spec fn fault_trace(registrations: nat) -> Seq<HookStep>
    decreases registrations,
{
    if registrations == 0 {
        seq![HookStep::Original]
    } else {
        fault_trace((registrations - 1) as nat).push(HookStep::Dump)
    }
}

/// After one more registration a fault still runs everything it ran
/// before, unchanged and first, and only then the new dump run.
pub proof fn lemma_previous_behaviour_kept(n: nat)
    ensures
        fault_trace(n + 1).len() == fault_trace(n).len() + 1,
        fault_trace(n + 1).subrange(0, fault_trace(n).len() as int) == fault_trace(n),
        fault_trace(n + 1).last() == HookStep::Dump,
{
    assert(fault_trace(n + 1).subrange(0, fault_trace(n).len() as int) =~= fault_trace(n));
}

/// Registering is not idempotent: after `n` registrations a fault runs the
/// hook from before the first registration exactly once, first, and the
/// dump run `n` times (twice after two registrations).
pub proof fn lemma_repeated_registration(n: nat)
    ensures
        fault_trace(n) == seq![HookStep::Original] + Seq::new(n, |i: int| HookStep::Dump),
    decreases n,
{
    if n > 0 {
        lemma_repeated_registration((n - 1) as nat);
        assert(fault_trace(n) =~= seq![HookStep::Original] + Seq::new(n, |i: int| HookStep::Dump));
    } else {
        assert(fault_trace(n) =~= seq![HookStep::Original] + Seq::new(n, |i: int| HookStep::Dump));
    }
}

} // verus!
