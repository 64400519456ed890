use once_cell::sync::OnceCell;
use vstd::prelude::*;
use crate::kind::{has_nul, kind_code, CounterKind};
use crate::once::entry_content;

verus! {

/// The process-wide slot for the address of the engine's lookup entry point,
/// with the search that finds it: searched for at most once, then shared
/// read-only; "not found" is kept as well, for good.
pub struct Resolver<F> {
    entry: OnceCell<Option<usize>>,
    find: F,
}

impl<F> Resolver<F> {
    /// The outcome of resolution once it is settled: `Some(Some(a))` when the
    /// entry point was found at address `a`, `Some(None)` when it was not,
    /// `None` while nobody has resolved yet.
    pub closed spec fn outcome(&self) -> Option<Option<usize>> {
        entry_content(self.entry)
    }

    /// The search this resolver was made with.
    pub closed spec fn find_of(&self) -> F {
        self.find
    }
}

impl<F> Resolver<F> where F: Fn() -> Option<usize> {
    /// A resolver that searches with `find`; it has not searched yet.
    pub fn new(find: F) -> (r: Resolver<F>)
        ensures
            r.find_of() == find,
    {
        Resolver { entry: OnceCell::new(), find }
    }

    /// Runs the search once, and returns what it found.
    pub fn find_now(&self) -> (r: Option<usize>)
        requires
            self.find_of().requires(()),
        ensures
            self.find_of().ensures((), r),
    {
        (self.find)()
    }

    /// The entry point's address. The search runs on the first call only,
    /// whatever the number of racing callers; every caller gets its answer.
    pub fn resolve(&self) -> (r: Option<usize>)
        requires
            self.find_of().requires(()),
        ensures
            self.outcome() == Some(r),
            self.find_of().ensures((), r),
    {
        settle_entry(self)
    }
}

/// Relies on `OnceCell::get_or_init`, as `settle_binding` does: a resolver's
/// cell is written here only, and always by the resolver's own `find_now`,
/// so what it holds is an answer of the resolver's search, run once.
#[verifier::external_body]
fn settle_entry<F>(res: &Resolver<F>) -> (r: Option<usize>)
    where
        F: Fn() -> Option<usize>,
    requires
        res.find_of().requires(()),
    ensures
        entry_content(res.entry) == Some(r),
        res.find_of().ensures((), r),
{
    *res.entry.get_or_init(|| res.find_now())
}

/// The counter that the engine's answer stands for: a zero address means
/// "no counter".
pub open spec fn lookup_outcome(address: usize) -> Option<usize> {
    if address == 0 {
        None
    } else {
        Some(address)
    }
}

/// Asks the entry point, if there is one, for the counter of this kind and
/// name. No call is made when resolution found nothing.
pub fn lookup_counter<C>(entry: Option<usize>, kind: CounterKind, name: &'static str, call: C) -> (r:
    Option<usize>)
    where
        C: FnOnce(usize, i32, &'static str) -> usize,
    requires
        !has_nul(name@),
        forall|e: usize| entry == Some(e) ==> call.requires((e, kind_code(kind), name)),
    ensures
        entry.is_none() ==> r.is_none(),
        forall|e: usize|
            entry == Some(e) ==> exists|a: usize|
                call.ensures((e, kind_code(kind), name), a) && r == lookup_outcome(a),
{
    match entry {
        None => None,
        Some(e) => {
            let address = call(e, kind.code(), name);
            let r = if address == 0 {
                None
            } else {
                Some(address)
            };
            assert(r == lookup_outcome(address));
            r
        },
    }
}

/// The registry client: resolves the entry point (searched for only on the
/// resolver's first use), then asks it with `call` for the counter of this
/// kind and name. `call` is made only when an entry point was found. The
/// name must be free of NUL characters, since the engine reads it as a C
/// string.
pub fn get_counter<F, C>(resolver: &Resolver<F>, kind: CounterKind, name: &'static str, call: C) -> (r:
    Option<usize>)
    where
        F: Fn() -> Option<usize>,
        C: FnOnce(usize, i32, &'static str) -> usize,
    requires
        !has_nul(name@),
        resolver.find_of().requires(()),
        forall|e: usize|
            resolver.outcome() == Some(Some(e)) ==> call.requires((e, kind_code(kind), name)),
    ensures
        resolver.outcome().is_some(),
        forall|found: Option<usize>|
            resolver.outcome() == Some(found) ==> resolver.find_of().ensures((), found),
        resolver.outcome() == Some(None::<usize>) ==> r.is_none(),
        forall|e: usize|
            resolver.outcome() == Some(Some(e)) ==> exists|a: usize|
                call.ensures((e, kind_code(kind), name), a) && r == lookup_outcome(a),
{
    let entry = resolver.resolve();
    lookup_counter(entry, kind, name, call)
}

} // verus!
