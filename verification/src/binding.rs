//! Driver-binding controller: decides when the kernel driver bound to an
//! interface must be detached before a transfer and reattached afterwards,
//! and proves that the detach/reattach pair restores the binding state the
//! interface had before.

use vstd::prelude::*;

verus! {

/// Binding state of the kernel driver on one interface at the moment of a
/// transfer.
#[derive(Clone, Copy, Debug, PartialEq, Eq, Structural)]
pub enum DriverBindingState {
    /// No kernel driver was bound to the interface.
    NotBound,
    /// A kernel driver is bound and was left in place.
    BoundByOs,
    /// A kernel driver was bound and this library detached it; it must be
    /// reattached before the operation completes.
    DetachedByUs,
}

/// Outcome of asking the operating system whether a kernel driver is
/// active on an interface.
#[derive(Clone, Copy, Debug, PartialEq, Eq, Structural)]
pub enum DriverQuery {
    /// A kernel driver is active.
    Active,
    /// No kernel driver is active.
    Inactive,
    /// The query itself failed; treated as "no driver", not escalated.
    Failed,
}

/// A detach is attempted exactly when the query reports an active driver;
/// a failed query is treated as "no driver".
pub open spec fn spec_detach_wanted(q: DriverQuery) -> bool {
    q is Active
}

/// Decides whether the kernel driver must be detached for this query
/// outcome.
pub fn detach_wanted(q: DriverQuery) -> (r: bool)
    ensures
        r == spec_detach_wanted(q),
{
    match q {
        DriverQuery::Active => true,
        DriverQuery::Inactive => false,
        DriverQuery::Failed => false,
    }
}

/// A reattach is owed exactly when this library itself detached the
/// driver.
pub open spec fn spec_reattach_needed(s: DriverBindingState) -> bool {
    s is DetachedByUs
}

/// Decides whether `reattach_if_needed` has work to do for a prior state.
pub fn reattach_needed(s: DriverBindingState) -> (r: bool)
    ensures
        r == spec_reattach_needed(s),
{
    match s {
        DriverBindingState::DetachedByUs => true,
        DriverBindingState::NotBound => false,
        DriverBindingState::BoundByOs => false,
    }
}

/// Model of a successful detach-if-bound step on an interface whose
/// kernel driver is bound (`true`) or not (`false`): the binding after the
/// step, and the prior-state record the step returns.
pub open spec fn spec_detach_step(bound: bool) -> (bool, DriverBindingState) {
    if bound {
        (false, DriverBindingState::DetachedByUs)
    } else {
        (bound, DriverBindingState::NotBound)
    }
}

/// Model of a successful reattach-if-needed step: the binding after the
/// step, given the binding before it and the recorded prior state.
pub open spec fn spec_reattach_step(bound: bool, prior: DriverBindingState) -> bool {
    if spec_reattach_needed(prior) {
        true
    } else {
        bound
    }
}

/// Simulates `detach_if_bound` against an interface whose kernel-driver
/// binding is `bound`, returning the binding after the step and the
/// prior-state record.
pub fn simulate_detach_if_bound(bound: bool) -> (r: (bool, DriverBindingState))
    ensures
        r == spec_detach_step(bound),
{
    if bound {
        (false, DriverBindingState::DetachedByUs)
    } else {
        (bound, DriverBindingState::NotBound)
    }
}

/// Simulates `reattach_if_needed`: a no-op unless the prior state records
/// a detach made by this library.
pub fn simulate_reattach_if_needed(bound: bool, prior: DriverBindingState) -> (r: bool)
    ensures
        r == spec_reattach_step(bound, prior),
{
    if reattach_needed(prior) {
        true
    } else {
        bound
    }
}

/// Round trip of the driver-binding controller: when no error occurs, a
/// detach-if-bound followed immediately by reattach-if-needed with the
/// returned prior state leaves the kernel-driver binding of the interface
/// exactly as it was before the detach, whatever it was.
pub proof fn lemma_detach_reattach_round_trip(bound: bool)
    ensures
        spec_reattach_step(spec_detach_step(bound).0, spec_detach_step(bound).1) == bound,
{
}

} // verus!
