use vstd::prelude::*;

verus! {

/// The least size of a thread's alternate signal stack that the engine's
/// sampling-signal handler can run on: one MiB.
pub const MIN_ALTSTACK_SIZE: usize = 1048576;

/// Whether the current thread has had its signal stack seen to. One such
/// flag lives in each thread.
#[derive(Clone, Copy, Debug, PartialEq, Eq, Structural)]
pub struct ThreadSetup {
    pub done: bool,
}

/// What one thread-setup call did.
#[derive(Clone, Copy, Debug, PartialEq, Eq, Structural)]
pub enum SetupOutcome {
    /// This thread was set up before; nothing was inspected.
    AlreadyDone,
    /// The installed alternate stack was large enough and was kept.
    Adequate,
    /// A new region of `MIN_ALTSTACK_SIZE` bytes was installed.
    Installed,
    /// The new region could not be had; the caller must not go on.
    AllocationFailed,
}

/// The outcome of a first setup that found a stack of `current` bytes and,
/// where it had to install one, heard `installed` back.
pub open spec fn first_setup_outcome(current: usize, installed: bool) -> SetupOutcome {
    if current >= MIN_ALTSTACK_SIZE {
        SetupOutcome::Adequate
    } else if installed {
        SetupOutcome::Installed
    } else {
        SetupOutcome::AllocationFailed
    }
}

impl ThreadSetup {
    /// The state of a thread that has not been set up.
    pub fn new() -> (r: ThreadSetup)
        ensures
            !r.done,
    {
        ThreadSetup { done: false }
    }
}

/// Whether an alternate stack of `current` bytes must be replaced.
pub fn needs_larger_stack(current: usize) -> (r: bool)
    ensures
        r == (current < MIN_ALTSTACK_SIZE),
{
    current < MIN_ALTSTACK_SIZE
}

/// One thread-setup call. The first call on a thread reads the size of its
/// alternate signal stack with `inspect` and, when that is under
/// `MIN_ALTSTACK_SIZE`, has `install` put a region of that size in place.
/// Every later call does nothing.
pub fn thread_init_with<I, A>(setup: &mut ThreadSetup, inspect: I, install: A) -> (r: SetupOutcome)
    where
        I: FnOnce() -> usize,
        A: FnOnce(usize) -> bool,
    requires
        setup_runs(*old(setup)) ==> inspect.requires(()),
        setup_runs(*old(setup)) ==> install.requires((MIN_ALTSTACK_SIZE,)),
    ensures
        final(setup).done,
        !setup_runs(*old(setup)) <==> r == SetupOutcome::AlreadyDone,
        setup_runs(*old(setup)) ==> exists|current: usize, installed: bool|
            inspect.ensures((), current) && (current < MIN_ALTSTACK_SIZE ==> install.ensures(
                (MIN_ALTSTACK_SIZE,),
                installed,
            )) && r == first_setup_outcome(current, installed),
{
    if setup.done {
        return SetupOutcome::AlreadyDone;
    }
    setup.done = true;
    let current = inspect();
    if !needs_larger_stack(current) {
        assert(first_setup_outcome(current, false) == SetupOutcome::Adequate);
        return SetupOutcome::Adequate;
    }
    let installed = install(MIN_ALTSTACK_SIZE);
    let r = if installed {
        SetupOutcome::Installed
    } else {
        SetupOutcome::AllocationFailed
    };
    assert(r == first_setup_outcome(current, installed));
    r
}

/// Whether a setup call made in state `s` does the work: inspects the stack
/// and, if needed, installs a new one.
pub open spec fn setup_runs(s: ThreadSetup) -> bool {
    !s.done
}

/// Setting a thread up twice does the work at most once: a call leaves the
/// flag set, and a call that starts from a set flag inspects and installs
/// nothing.
pub proof fn lemma_setup_idempotent(after_first: ThreadSetup)
    requires
        after_first.done,
    ensures
        !setup_runs(after_first),
{
}

} // verus!
