use std::sync::atomic::{AtomicUsize, Ordering};
use once_cell::sync::OnceCell;
use vstd::prelude::*;
use crate::kind::{has_nul, CounterKind};
use crate::once::binding_content;

verus! {

/// The count cell that the engine hands out for a counter. The engine owns
/// it for the rest of the process; this library only adds to it.
pub type CountCell = &'static AtomicUsize;

/// A progress point: a kind, a name, the lookup that asks the engine for its
/// count cell, and the binding to that cell, settled once on the first
/// increment. Its name never holds a NUL character, so that it can be
/// handed to the engine as a C string.
pub struct Counter<L> {
    slot: OnceCell<Option<CountCell>>,
    kind: CounterKind,
    name: &'static str,
    lookup: L,
}

impl<L> Counter<L> {
    #[verifier::type_invariant]
    spec fn inv(&self) -> bool {
        !has_nul(self.name@)
    }

    /// The binding once it is settled: `Some(Some(c))` when the engine gave
    /// the count cell `c`, `Some(None)` when it gave none, `None` while no
    /// increment has settled it.
    pub closed spec fn binding(&self) -> Option<Option<CountCell>> {
        binding_content(self.slot)
    }

    /// The kind this counter was made with.
    pub closed spec fn kind_of(&self) -> CounterKind {
        self.kind
    }

    /// The name this counter was made with.
    pub closed spec fn name_of(&self) -> &'static str {
        self.name
    }

    /// The lookup this counter was made with.
    pub closed spec fn lookup_of(&self) -> L {
        self.lookup
    }

    /// The kind of this counter.
    pub fn kind(&self) -> (r: CounterKind)
        ensures
            r == self.kind_of(),
    {
        self.kind
    }

    /// The name of this counter.
    pub fn name(&self) -> (r: &'static str)
        ensures
            r == self.name_of(),
            !has_nul(r@),
    {
        proof {
            use_type_invariant(self);
        }
        self.name
    }
}

impl<L> Counter<L> where L: Fn(CounterKind, &'static str) -> Option<CountCell> {
    /// A throughput counter: each increment reports one occurrence of an
    /// event.
    pub fn progress(name: &'static str, lookup: L) -> (r: Counter<L>)
        requires
            !has_nul(name@),
        ensures
            r.kind_of() == CounterKind::Throughput,
            r.name_of() == name,
            r.lookup_of() == lookup,
    {
        Counter::new(CounterKind::Throughput, name, lookup)
    }

    /// The opening edge of an interval; to be paired with an `end` counter of
    /// the same name.
    pub fn begin(name: &'static str, lookup: L) -> (r: Counter<L>)
        requires
            !has_nul(name@),
        ensures
            r.kind_of() == CounterKind::Begin,
            r.name_of() == name,
            r.lookup_of() == lookup,
    {
        Counter::new(CounterKind::Begin, name, lookup)
    }

    /// The closing edge of an interval; to be paired with a `begin` counter
    /// of the same name.
    pub fn end(name: &'static str, lookup: L) -> (r: Counter<L>)
        requires
            !has_nul(name@),
        ensures
            r.kind_of() == CounterKind::End,
            r.name_of() == name,
            r.lookup_of() == lookup,
    {
        Counter::new(CounterKind::End, name, lookup)
    }

    /// A counter of the given kind and name that binds through `lookup`.
    /// Nothing is looked up yet.
    pub fn new(kind: CounterKind, name: &'static str, lookup: L) -> (r: Counter<L>)
        requires
            !has_nul(name@),
        ensures
            r.kind_of() == kind,
            r.name_of() == name,
            r.lookup_of() == lookup,
    {
        Counter { slot: OnceCell::new(), kind, name, lookup }
    }

    /// Asks the engine, through this counter's lookup, for its cell: the
    /// lookup gets the kind and the name, and its answer is returned as it is.
    pub fn create_counter(&self) -> (r: Option<CountCell>)
        requires
            self.lookup_of().requires((self.kind_of(), self.name_of())),
        ensures
            self.lookup_of().ensures((self.kind_of(), self.name_of()), r),
    {
        (self.lookup)(self.kind, self.name)
    }

    /// Records one occurrence at this counter, and returns its binding.
    ///
    /// The first call settles the binding: the lookup runs once, whatever
    /// the number of racing callers, and its answer is kept for good. With a
    /// count cell in the binding, one sequentially consistent add of one goes
    /// into it; with none, nothing happens.
    pub fn increment(&self) -> (r: Option<CountCell>)
        requires
            self.lookup_of().requires((self.kind_of(), self.name_of())),
        ensures
            self.binding() == Some(r),
            self.lookup_of().ensures((self.kind_of(), self.name_of()), r),
    {
        let bound = settle_binding(self);
        if let Some(cell) = bound {
            cell.fetch_add(1, Ordering::SeqCst);
        }
        bound
    }
}

/// Relies on `OnceCell::get_or_init`: of the callers that race on an empty
/// cell exactly one runs its initializer, the others wait for it, and every
/// caller gets back the value stored. A counter's cell is written here only,
/// and always by the counter's own `create_counter`, so what it holds is an
/// answer of the counter's lookup to the counter's kind and name. The
/// initializer is the counter's own lookup, which the counter owns and so
/// cannot hold a borrow of that counter; once_cell leaves an initializer that
/// re-enters its own cell unspecified.
#[verifier::external_body]
fn settle_binding<L>(c: &Counter<L>) -> (r: Option<CountCell>)
    where
        L: Fn(CounterKind, &'static str) -> Option<CountCell>,
    requires
        c.lookup_of().requires((c.kind_of(), c.name_of())),
    ensures
        binding_content(c.slot) == Some(r),
        c.lookup_of().ensures((c.kind_of(), c.name_of()), r),
{
    *c.slot.get_or_init(|| c.create_counter())
}

/// A counter's binding is one outcome for all callers: any two increments of
/// the same counter, from any threads, report the same binding.
pub proof fn lemma_binding_agrees<L>(c: &Counter<L>, first: Option<CountCell>, second: Option<
    CountCell,
>)
    requires
        c.binding() == Some(first),
        c.binding() == Some(second),
    ensures
        first == second,
{
}

/// A counter whose lookup finds nothing is bound to no cell: its increments
/// report no binding and add nothing anywhere.
pub proof fn lemma_no_engine_no_binding<L>(c: &Counter<L>, r: Option<CountCell>)
    where
        L: Fn(CounterKind, &'static str) -> Option<CountCell>,
    requires
        forall|a: Option<CountCell>|
            c.lookup_of().ensures((c.kind_of(), c.name_of()), a) ==> a.is_none(),
        c.lookup_of().ensures((c.kind_of(), c.name_of()), r),
        c.binding() == Some(r),
    ensures
        c.binding() == Some(None::<CountCell>),
{
}

} // verus!
