//! Progress points for a causal profiler that may or may not be loaded.
//!
//! A [`Counter`] names a point of interest by kind and name. On its first
//! increment it asks the profiling engine, through a lookup that the caller
//! hands in, for a shared count cell; afterwards each increment is one atomic
//! add, or nothing at all when the engine had no cell to give.
//!
//! The engine's entry point is found at most once per process through a
//! [`Resolver`]; [`ThreadSetup`] and [`thread_init_with`] decide the
//! per-thread signal-stack sizing that the engine's sampling signal needs.

mod altstack;
mod bench;
mod counter;
mod kind;
mod once;
mod resolver;

pub use altstack::{
    first_setup_outcome, lemma_setup_idempotent, needs_larger_stack, setup_runs,
    thread_init_with, SetupOutcome, ThreadSetup, MIN_ALTSTACK_SIZE,
};
pub use bench::{a_first_fn, b_second_fn};
pub use counter::{lemma_binding_agrees, lemma_no_engine_no_binding, CountCell, Counter};
pub use kind::{has_nul, kind_code, CounterKind};
pub use resolver::{get_counter, lookup_counter, lookup_outcome, Resolver};
