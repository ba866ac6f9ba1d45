//! Runtime selection: the capability that maps a request to the runtime
//! that serves it.

use vstd::prelude::*;

verus! {

/// A selection strategy. The dispatch code depends on this contract alone,
/// never on which strategy is installed.
pub trait RuntimeSelector {
    /// The runtime handle that the strategy hands out.
    type Runtime;

    /// What a request brings with it for the strategy to decide on.
    type Context;

    /// The runtime that serves a request with context `context`.
    spec fn chosen(&self, context: Self::Context) -> Self::Runtime;

    /// Looks up the runtime for a request. Never fails.
    fn select(&self, context: &Self::Context) -> (runtime: &Self::Runtime)
        ensures
            *runtime == self.chosen(*context),
    ;
}

/// The fixed strategy: one runtime, built before the selector and owned by
/// it, serves every request. A selector cannot exist without its runtime,
/// so a lookup before installation cannot be written.
pub struct FixedRuntimeSelector<R, C> {
    runtime: R,
    context: core::marker::PhantomData<C>,
}

impl<R, C> FixedRuntimeSelector<R, C> {
    /// The runtime this selector was built from.
    pub closed spec fn runtime(&self) -> R {
        self.runtime
    }

    /// Installs `runtime` as the one runtime of the process.
    pub fn new(runtime: R) -> (selector: Self)
        ensures
            selector.runtime() == runtime,
    {
        FixedRuntimeSelector { runtime, context: core::marker::PhantomData }
    }
}

impl<R, C> RuntimeSelector for FixedRuntimeSelector<R, C> {
    type Runtime = R;

    type Context = C;

    open spec fn chosen(&self, context: C) -> R {
        self.runtime()
    }

    fn select(&self, context: &C) -> (runtime: &R) {
        &self.runtime
    }
}

/// Under the fixed strategy any two request contexts are served by the same
/// runtime, the one the selector was built from.
pub proof fn fixed_selection_ignores_context<R, C>(
    selector: FixedRuntimeSelector<R, C>,
    first: C,
    second: C,
)
    ensures
        selector.chosen(first) == selector.chosen(second),
        selector.chosen(first) == selector.runtime(),
{
}

} // verus!
