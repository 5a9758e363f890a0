//! The lifecycle record: which hook is installed and which reporting handle
//! the service holds.
//!
//! The record is plain data. It is generic over the hook reference `H` and the
//! reporting handle `R`, both opaque to this crate: only their presence is ever
//! inspected. Dropping an `H` is what releases the hook.

use vstd::prelude::*;

verus! {

/// The mathematical content of a [`LifecycleState`].
pub struct LifecycleView<H, R> {
    pub hook: Option<H>,
    pub reporting_handle: Option<R>,
}

impl<H, R> LifecycleView<H, R> {
    /// The record at process start: no hook, no handle.
    pub open spec fn empty() -> Self {
        LifecycleView { hook: None, reporting_handle: None }
    }

    pub open spec fn hook_installed(self) -> bool {
        self.hook is Some
    }

    pub open spec fn handle_registered(self) -> bool {
        self.reporting_handle is Some
    }

    /// The record after `handle` has been stored; the hook is untouched.
    pub open spec fn with_reporting_handle(self, handle: R) -> Self {
        LifecycleView { hook: self.hook, reporting_handle: Some(handle) }
    }

    /// The record after the provider's answer has been stored; the handle is
    /// untouched.
    pub open spec fn with_hook(self, provided: Option<H>) -> Self {
        LifecycleView { hook: provided, reporting_handle: self.reporting_handle }
    }

    /// The record after the hook has been released; the handle is untouched.
    pub open spec fn without_hook(self) -> Self {
        LifecycleView { hook: None, reporting_handle: self.reporting_handle }
    }
}

/// The optional active hook and the optional reporting handle of one service
/// process.
pub struct LifecycleState<H, R> {
    hook: Option<H>,
    reporting_handle: Option<R>,
}

impl<H, R> View for LifecycleState<H, R> {
    type V = LifecycleView<H, R>;

    closed spec fn view(&self) -> LifecycleView<H, R> {
        LifecycleView { hook: self.hook, reporting_handle: self.reporting_handle }
    }
}

impl<H, R> LifecycleState<H, R> {
    /// The empty record.
    pub fn new() -> (state: Self)
        ensures
            state@ == LifecycleView::<H, R>::empty(),
    {
        LifecycleState { hook: None, reporting_handle: None }
    }

    /// True iff a hook is installed.
    pub fn has_active_hook(&self) -> (installed: bool)
        ensures
            installed == self@.hook_installed(),
    {
        self.hook.is_some()
    }

    /// True iff the reporting handle has been stored.
    pub fn has_reporting_handle(&self) -> (registered: bool)
        ensures
            registered == self@.handle_registered(),
    {
        self.reporting_handle.is_some()
    }

    /// Stores the reporting handle obtained at registration.
    pub fn set_reporting_handle(&mut self, handle: R)
        ensures
            final(self)@ == old(self)@.with_reporting_handle(handle),
    {
        self.reporting_handle = Some(handle);
    }

    /// Records the hook provider's answer: a live reference is stored and the
    /// installation counts as successful; without one the hook is left empty.
    pub fn install_hook(&mut self, provided: Option<H>) -> (installed: bool)
        ensures
            installed == provided is Some,
            final(self)@ == old(self)@.with_hook(provided),
    {
        let installed = provided.is_some();
        self.hook = provided;
        installed
    }

    /// Releases the hook, if any. Clearing an empty record changes nothing.
    pub fn clear_hook(&mut self)
        ensures
            final(self)@ == old(self)@.without_hook(),
    {
        self.hook = None;
    }
}

} // verus!
